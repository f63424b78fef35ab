//! The one failure the canvas reports.
use vstd::prelude::*;

verus! {

/// Why a frame could not be rendered.
#[derive(Debug, Clone, PartialEq, Eq)]
pub enum VisCanvasError {
    /// An image's bitmap could not be loaded; the message says why.
    LoadError(String),
}

/// The result of a canvas operation.
pub type VisCanvasResult<T> = Result<T, VisCanvasError>;

} // verus!
