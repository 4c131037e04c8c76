//! Presentation helpers for errors that cross the network boundary.

use vstd::prelude::*;

verus! {

/// Renders an error as the short, user-facing text that the interface shows;
/// transport and server detail is collapsed into coarse phrases.
pub trait ToPrettyError {
    /// The user-facing text.
    fn to_pretty_error(&self) -> String;
}

} // verus!
