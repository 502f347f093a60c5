//! Verified core of a real-time voice-capture pipeline.
//!
//! A stream of mono audio samples is cut into fixed-size analysis frames,
//! classified frame by frame as speech or silence, and stitched into
//! utterances with natural lead-in and trailing silence.  Each finished
//! utterance is encoded as a 16-bit PCM WAV container and handed on as a
//! base64 string.  A controller guards the session lifecycle: at most one
//! capture runs at a time, configurations are validated before use.
//!
//! The core works on plain integers only.  Samples travel through the
//! segmenter as opaque 32-bit words that are never interpreted, and the
//! detection thresholds are held in millionths of full scale, so that every
//! decision the pipeline makes is exact integer arithmetic.  The floating
//! point signal conditioning (noise gate, frame metrics, loudness
//! normalization) lives with the surrounding application, which hands the
//! core conditioned frames together with their measured levels.

pub mod agents;
pub mod api;
pub mod config;
pub mod continuous;
pub mod controller;
pub mod errors;
pub mod license;
pub mod vad;
pub mod wav;
pub mod whisper;
