use vstd::prelude::*;

verus! {

/// Every failure of the pipeline. Each error is fatal: the run aborts on the
/// first one, and images already written stay on disk.
#[derive(Clone, Copy, Debug, PartialEq, Eq, Structural)]
pub enum PipelineError {
    /// The input path cannot be read or the container is unrecognized.
    OpenError,
    /// The container holds no stream of video type.
    NoVideoStreamError,
    /// The chosen stream's codec parameters are unsupported.
    DecoderInitError,
    /// The decoder rejected a compressed packet as malformed.
    DecodeError,
    /// The decoded frame's layout is unrecognized, its dimensions are zero,
    /// or its shape does not match what the writer expects.
    ConversionError,
    /// The output directory is missing, or encoding or the disk write failed.
    WriteError,
}

impl PipelineError {
    /// A short description of the failed stage, for reporting.
    pub fn describe(&self) -> (s: &'static str)
        ensures
            s@ == self.spec_describe(),
    {
        match self {
            PipelineError::OpenError => "cannot open input container",
            PipelineError::NoVideoStreamError => "no video stream in container",
            PipelineError::DecoderInitError => "unsupported codec parameters",
            PipelineError::DecodeError => "malformed compressed data",
            PipelineError::ConversionError => "unsupported or mis-shaped frame",
            PipelineError::WriteError => "image encoding or write failed",
        }
    }

    pub open spec fn spec_describe(&self) -> Seq<char> {
        match self {
            PipelineError::OpenError => "cannot open input container"@,
            PipelineError::NoVideoStreamError => "no video stream in container"@,
            PipelineError::DecoderInitError => "unsupported codec parameters"@,
            PipelineError::DecodeError => "malformed compressed data"@,
            PipelineError::ConversionError => "unsupported or mis-shaped frame"@,
            PipelineError::WriteError => "image encoding or write failed"@,
        }
    }
}

} // verus!
