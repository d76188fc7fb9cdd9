//! The error taxonomy of the library.

use vstd::prelude::*;

verus! {

/// Everything that can go wrong in a job: bad configuration, a per-frame
/// decode failure, and the failures of the external media tool and of the
/// shared font resource.
#[derive(Clone, Copy, PartialEq, Eq, Structural, Debug)]
pub enum AsciiError {
    /// The command line did not describe a job.
    InvalidArgument,
    /// The input path does not exist.
    PathNotFound,
    /// A frame's bytes could not be decoded as an image.
    DecodeError,
    /// The sampling stride was zero.
    InvalidScale,
    /// The framerate probe failed or returned nothing.
    ProbeError,
    /// The frame-extraction call exited with an error.
    ExtractionError,
    /// The re-encoding call exited with an error.
    EncodingError,
    /// The shared font resource could not be loaded.
    FontLoadError,
}

impl AsciiError {
    /// The fixed description of each variant.
    pub open spec fn describe_spec(self) -> Seq<char> {
        match self {
            AsciiError::InvalidArgument => "invalid arguments"@,
            AsciiError::PathNotFound => "file does not exist"@,
            AsciiError::DecodeError => "could not decode frame"@,
            AsciiError::InvalidScale => "scale must be at least 1"@,
            AsciiError::ProbeError => "could not probe framerate"@,
            AsciiError::ExtractionError => "could not extract frames"@,
            AsciiError::EncodingError => "could not encode video"@,
            AsciiError::FontLoadError => "could not load font"@,
        }
    }

    /// A short human-readable description, one fixed string per variant.
    pub fn describe(&self) -> (s: &'static str)
        ensures
            s@ == self.describe_spec(),
    {
        match self {
            AsciiError::InvalidArgument => "invalid arguments",
            AsciiError::PathNotFound => "file does not exist",
            AsciiError::DecodeError => "could not decode frame",
            AsciiError::InvalidScale => "scale must be at least 1",
            AsciiError::ProbeError => "could not probe framerate",
            AsciiError::ExtractionError => "could not extract frames",
            AsciiError::EncodingError => "could not encode video",
            AsciiError::FontLoadError => "could not load font",
        }
    }
}

} // verus!
