//! Turns the change events of a property inspector into reversible edit
//! commands for the lights of a scene.
//!
//! An inspector walks the fields of whatever object it shows and reports each
//! edit as a field name with a new value, possibly nested through composite
//! fields and collections. The functions in [`dispatch`] decide which field of
//! which kind of light such an event means, and build the [`command::Command`]
//! that makes the edit and can take it back, or decide that no command applies.

pub mod text;
pub mod value;
pub mod field;
pub mod light;
pub mod event;
pub mod command;
pub mod dispatch;
