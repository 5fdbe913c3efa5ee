//! What can go wrong.

use vstd::prelude::*;

verus! {

/// The failures of the board and of the run loop. Both are fatal: the
/// first is a defect of the caller, the second ends the session.
#[derive(Clone, Copy, Debug, PartialEq, Eq, Structural)]
pub enum AppError {
    /// A cell outside the six rows and five columns of the board was asked
    /// for.
    OutOfRange,
    /// The terminal could not be drawn on.
    RenderSurfaceUnavailable,
}

} // verus!
