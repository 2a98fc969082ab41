//! The ways in which recognition can fail.

use vstd::prelude::*;

verus! {

#[derive(Clone, Copy, Debug, PartialEq, Eq, Structural)]
pub enum OcrError {
    /// The screenshot could not be read or decoded.
    ImageDecode,
    /// A queue to or from a worker is closed.
    Channel,
    /// The recognition engine reported a failure.
    RecognitionEngine,
    /// The staged image could not be written or removed.
    Persistence,
    /// The catalog holds no entry to match against.
    EmptyCatalog,
}

} // verus!
