//! The decision logic of the Harmoxen sheet editor and of its project file
//! commands, verified with Verus.
//!
//! The graphical shell (windows, widgets, painting, file I/O, serialisation)
//! performs the effects that these functions decide on and reports back the
//! facts it observed; see the README for the layout of the crate.

pub mod edit_action;
pub mod editor_laws;
pub mod fileops;
pub mod note_id;
pub mod note_menu;
pub mod sheet_editor;
