//! Renders descriptions of a command-line program's flags and subcommands
//! into `mdoc(7)` markup, and plans the writes of the body, header and footer
//! documents of its manual page.
pub mod text;
pub mod model;
pub mod render;
pub mod finalize;

pub use model::{Flag, Manpage, Subcommand, TakesValue};
pub use finalize::{Artifact, Finalizer};
