//! Error taxonomy of the capture pipeline.

use vstd::prelude::*;

verus! {

/// Why an encode of a finished utterance was refused.
#[derive(Clone, Copy, Debug, PartialEq, Eq, Structural)]
pub enum EncodeError {
    /// There were no samples to encode.
    EmptyBuffer,
    /// The sample rate lies outside the supported 8000..=96000 Hz band.
    SampleRateOutOfRange,
}

impl EncodeError {
    /// A short description, for surfacing to the consumer.
    pub fn message(&self) -> (r: &'static str)
        ensures
            *self is EmptyBuffer ==> r@ == "Empty audio buffer"@,
            *self is SampleRateOutOfRange ==> r@ == "Invalid sample rate. Expected 8000-96000 Hz"@,
    {
        match self {
            EncodeError::EmptyBuffer => "Empty audio buffer",
            EncodeError::SampleRateOutOfRange => "Invalid sample rate. Expected 8000-96000 Hz",
        }
    }
}

/// Why a controller command was refused.
#[derive(Clone, Copy, Debug, PartialEq, Eq, Structural)]
pub enum CaptureError {
    /// A capture session is already registered.
    AlreadyCapturing,
    /// The audio stream reported a rate outside the 8000..=96000 Hz band.
    InvalidSampleRate,
    /// A replacement configuration failed validation.
    InvalidConfig,
}

impl CaptureError {
    /// A short description, for surfacing to the consumer.
    pub fn message(&self) -> (r: &'static str)
        ensures
            *self is AlreadyCapturing ==> r@ == "Capture already running"@,
            *self is InvalidSampleRate ==> r@ == "Invalid sample rate. Expected 8000-96000 Hz"@,
            *self is InvalidConfig ==> r@ == "Invalid VAD configuration"@,
    {
        match self {
            CaptureError::AlreadyCapturing => "Capture already running",
            CaptureError::InvalidSampleRate => "Invalid sample rate. Expected 8000-96000 Hz",
            CaptureError::InvalidConfig => "Invalid VAD configuration",
        }
    }
}

} // verus!
