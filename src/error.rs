//! The ways a run of the pipeline can fail.
use vstd::prelude::*;

verus! {

/// Why a photo could not be produced.
#[derive(Clone, Copy, Debug, PartialEq, Eq, Structural)]
pub enum ProcessError {
    /// The input bytes are not an image that the codec can read.
    DecodeError,
    /// The composed frame could not be compressed.
    EncodeError,
    /// A face-centred crop was asked of a source smaller than the frame,
    /// or there is no pixel to scale.
    GeometryDegenerate,
}

impl ProcessError {
    /// A short description of the failure.
    pub fn message(&self) -> (r: &'static str)
        ensures
            *self == ProcessError::DecodeError ==> r@ == "failed to decode image"@,
            *self == ProcessError::EncodeError ==> r@ == "failed to encode output"@,
            *self == ProcessError::GeometryDegenerate ==> r@
                == "source image is smaller than the frame"@,
    {
        match self {
            ProcessError::DecodeError => "failed to decode image",
            ProcessError::EncodeError => "failed to encode output",
            ProcessError::GeometryDegenerate => "source image is smaller than the frame",
        }
    }
}

} // verus!
