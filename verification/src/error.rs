//! The error taxonomy shared by every component of the renderer.

use vstd::prelude::*;

verus! {

/// Why a render request did not complete.
///
/// Every failure is handed back to the caller as one of these values; nothing
/// in this crate aborts the process.
#[derive(Clone, Copy, Debug, PartialEq, Eq, Structural)]
pub enum RenderError {
    /// The caller's arguments cannot be rendered: a buffer whose length is
    /// not `width * height * 4`, a source or a window without area, or a
    /// placement that would divide by a zero source dimension.
    InvalidInput,
    /// A graphics context or surface could not be created or resized.
    ResourceAcquisitionFailed,
    /// The finished frame could not be shown.
    PresentationFailed,
    /// A cache entry that must exist was not found.
    StateUnavailable,
}

} // verus!
