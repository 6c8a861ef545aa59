//! The error kinds a pipeline run can surface.

use vstd::prelude::*;

verus! {

/// Everything that can go wrong while turning a video into pose records.
///
/// `DecodeFailure` is fatal for the remainder of a run, but the records
/// assembled before it are still flushed (see `record::Assembler::finish`).
/// A detection whose pose cannot be resolved is not an error at all: it is
/// silently dropped by the extractor.
#[derive(Clone, Copy, Debug, PartialEq, Eq, Structural)]
pub enum PipelineError {
    /// A required calibration field is missing, non-finite or not positive.
    MalformedCalibration,
    /// The requested physical tag size is not a positive finite length.
    InvalidTagSize,
    /// The input resource holds no decodable video stream.
    NoVideoStream,
    /// A decoder could not be initialised for the stream's codec parameters.
    UnsupportedCodec,
    /// The decoder session became unusable; the run ends with the records
    /// gathered so far.
    DecodeFailure,
}

} // verus!
