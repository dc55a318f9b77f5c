use vstd::prelude::*;

verus! {

/// How a merge computation can fail. Every failure aborts the whole
/// computation: no partial or best-effort result is ever produced.
#[derive(Clone, Copy, Debug, PartialEq, Eq, Structural)]
pub enum Error {
    /// Exposure or gain metadata could not be obtained, or is not
    /// index-aligned with the image set.
    Metadata,
    /// An image is not a 3-channel RGB pixel buffer (alpha, grayscale and
    /// other encodings are rejected, never converted).
    Decode,
    /// A pixel buffer's length is not a multiple of 3, or buffers across
    /// images have mismatched lengths.
    Shape,
    /// The image set is empty, so there is nothing to seed the merge with.
    InsufficientInput,
    /// Any other failure.
    Unknown,
}

} // verus!
