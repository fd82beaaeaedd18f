//! Concurrent progress bars drawn in place on a terminal.
//!
//! A [`Progress`] coordinator owns one row per bar, in creation order, and a
//! buffer of terminal text. Callers hold [`Bar`] handles, advance the rows and
//! ask for redraws; the coordinator writes only the lines whose displayed
//! percentage changed. The text it produces is taken out with
//! [`Progress::take_output`] and written to the terminal by the caller.
use vstd::prelude::*;

pub mod laws;
pub mod layout;
pub mod model;
pub mod progress;
mod terminal;

pub use layout::denomination;
pub use progress::{Bar, LogScope, Progress};



