[package]
name = "rnote-ui"
version = "0.1.0"
edition = "2021"
publish = false

[dependencies]
gtk4 = "0.8"
libadwaita = "0.6"
gettext-rs = "0.7"
anyhow = "1"
log = "0.4"
once_cell = "1"
nalgebra = "0.32"
parry2d-f64 = "0.13"
