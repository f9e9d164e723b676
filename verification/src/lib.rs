//! The canvas widget's own state and decisions: which cursor it shows, which
//! property changes it announces, how it reacts to changes of its output file
//! on disk, what it displays as the document's title and folder, what it does
//! with dropped values, and which connections it hands back for disconnecting.
//!
//! Everything that draws, talks to the toolkit or reads the disk lives outside
//! this library and hands plain values in.

pub mod connections;
pub mod cursor;
pub mod file;
pub mod input;
pub mod laws;
pub mod monitor;
pub mod property;
pub mod state;
pub mod text;
pub mod title;
