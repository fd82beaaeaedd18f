//! The one question asked of the terminal.
use vstd::prelude::*;

verus! {

/// Width and height of the terminal on standard output, in columns and lines,
/// or `None` when standard output is not a terminal.
///
/// Relies on `terminal_size::terminal_size`, which asks the operating system
/// for the window size of standard output. What it finds depends on the
/// machine, so nothing is promised of it beyond its type.
#[verifier::external_body]
pub(crate) fn terminal_geometry() -> (r: Option<(u16, u16)>) {
    match terminal_size::terminal_size() {
        Some((terminal_size::Width(w), terminal_size::Height(h))) => Some((w, h)),
        None => None,
    }
}

} // verus!
