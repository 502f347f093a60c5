//! Capture configuration over plain integers.
//!
//! Consumers of the pipeline think of detection thresholds as fractions of
//! full scale.  The verified core stores each threshold in millionths of
//! full scale instead, so that every comparison the segmenter makes is exact
//! integer arithmetic; the surrounding application converts a fractional
//! threshold to millionths at the boundary.

use vstd::prelude::*;

verus! {

/// One million millionths: a threshold equal to this value sits at full scale.
pub const FULL_SCALE_MILLIONTHS: u32 = 1_000_000;

/// Configuration of the voice-activity-detection pipeline.
#[derive(Clone, Copy, Debug, PartialEq, Eq, Structural)]
pub struct VadConfig {
    /// `true`: segment by voice activity; `false`: plain bounded recording.
    pub enabled: bool,
    /// Samples per analysis frame (one hop).
    pub hop_size: usize,
    /// RMS level above which a frame counts as speech, in millionths of full scale.
    pub sensitivity_rms: u32,
    /// Peak magnitude above which a frame counts as speech, in millionths of full scale.
    pub peak_threshold: u32,
    /// Consecutive silent frames after which an utterance ends.
    pub silence_chunks: usize,
    /// Minimum number of speech frames for an utterance to be kept.
    pub min_speech_chunks: usize,
    /// Frames of look-back audio retained while idle.
    pub pre_speech_chunks: usize,
    /// Noise-gate knee threshold, in millionths of full scale.
    pub noise_gate_threshold: u32,
    /// Upper bound on one continuous recording, in seconds.
    pub max_recording_duration_secs: u64,
}

impl VadConfig {
    /// The ranges checked whenever a consumer replaces the configuration:
    /// the RMS threshold may not exceed full scale, and a continuous
    /// recording may not be allowed to run longer than one hour.
    pub open spec fn valid(self) -> bool {
        &&& self.sensitivity_rms <= FULL_SCALE_MILLIONTHS
        &&& self.max_recording_duration_secs <= 3600
    }

    /// The `valid` ranges, checked at run time wherever a consumer hands in
    /// a configuration.
    pub fn is_valid(&self) -> (r: bool)
        ensures
            r == self.valid(),
    {
        self.sensitivity_rms <= FULL_SCALE_MILLIONTHS && self.max_recording_duration_secs <= 3600
    }

    /// Size bounds under which every buffer computation of the pipeline fits
    /// comfortably in a `usize`.  These are machine limits, far above any
    /// configuration that makes acoustic sense: frames of at most 65536
    /// samples, and frame counts of at most 4096.
    pub open spec fn fits(self) -> bool {
        &&& 0 < self.hop_size <= 0x1_0000
        &&& self.silence_chunks <= 0x1000
        &&& self.min_speech_chunks <= 0x1000
        &&& self.pre_speech_chunks <= 0x1000
    }

    /// The recommended configuration, chosen for close-talk speech at common
    /// sample rates: 1024-sample hops, an RMS gate of 0.012 with a 0.035 peak
    /// gate, about one second of hangover silence, and three-minute continuous
    /// recordings.
    pub open spec fn recommended() -> VadConfig {
        VadConfig {
            enabled: true,
            hop_size: 1024,
            sensitivity_rms: 12_000,
            peak_threshold: 35_000,
            silence_chunks: 45,
            min_speech_chunks: 7,
            pre_speech_chunks: 12,
            noise_gate_threshold: 3_000,
            max_recording_duration_secs: 180,
        }
    }
}

impl Default for VadConfig {
    /// The recommended configuration; it passes both `valid` and `fits`.
    fn default() -> (c: VadConfig)
        ensures
            c == VadConfig::recommended(),
            c.valid(),
            c.fits(),
    {
        VadConfig {
            enabled: true,
            hop_size: 1024,
            sensitivity_rms: 12_000,
            peak_threshold: 35_000,
            silence_chunks: 45,
            min_speech_chunks: 7,
            pre_speech_chunks: 12,
            noise_gate_threshold: 3_000,
            max_recording_duration_secs: 180,
        }
    }
}

} // verus!
