# rnote-ui canvas state

A verified library for the state and the decisions of the drawing canvas
widget of Rnote, written in Verus.

- `src/` – the library, verified by Verus:
  - `state.rs` – the canvas state (flags, cursor icons, output file, scroll
    policies) with its model, the property setters and what each one
    announces;
  - `cursor.rs` – cursor selection and the resource paths of cursor textures;
  - `property.rs` – the canvas properties, their names and declared defaults;
  - `monitor.rs` – the reaction to changes of the output file on disk;
  - `title.rs` – the document title and folder shown for the output file;
  - `connections.rs` – bookkeeping of the signal handlers, bindings and file
    monitor that the canvas installs;
  - `input.rs` – dropped values and the import of the stored engine
    configuration;
  - `laws.rs` – properties that relate several operations, proved over the
    model.
- `app/` – the toolkit side (gtk4, gio, gdk, libadwaita, gettext, geometry
  with nalgebra and parry2d), which converts toolkit objects to plain values
  and carries out the library's decisions.
- `tests/` – tests of the library on concrete values.
