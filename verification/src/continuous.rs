//! The VAD-disabled fallback: plain bounded accumulation.
//!
//! No state machine — samples are appended until the buffer reaches the
//! configured capacity, the wall clock runs out, or the consumer cancels.
//! The surrounding loop owns the clock and the cancellation flag; the
//! recorder here owns the buffer, says when a progress notice is due and
//! when it is full, and hands the audio back at the end.

use vstd::prelude::*;

use crate::config::VadConfig;

verus! {

/// What one accepted sample asks of the surrounding loop.
pub struct ContinuousStep {
    /// A whole second of audio has just accumulated: report progress.
    pub progress_due: bool,
    /// The buffer has reached its capacity: stop recording.
    pub full: bool,
}

/// Bounded sample accumulator of one continuous recording.
pub struct ContinuousCapture {
    /// Sample rate of the stream, in the supported 8000..=96000 Hz band.
    pub sample_rate: u32,
    /// Capacity: the configured duration at the stream's rate.
    pub max_samples: usize,
    /// The recording, as opaque 32-bit sample words.
    pub buffer: Vec<u32>,
}

impl ContinuousCapture {
    /// The buffer never outgrows its capacity, which itself stays within
    /// one hour of audio at the highest supported rate.
    pub open spec fn wf(self) -> bool {
        &&& 8000 <= self.sample_rate <= 96000
        &&& self.max_samples <= 96000 * 3600
        &&& self.buffer@.len() <= self.max_samples
    }

    /// A fresh recorder for one continuous session.
    pub fn new(sample_rate: u32, config: &VadConfig) -> (c: ContinuousCapture)
        requires
            8000 <= sample_rate <= 96000,
            config.valid(),
        ensures
            c.wf(),
            c.sample_rate == sample_rate,
            c.max_samples == sample_rate * config.max_recording_duration_secs,
            c.buffer@.len() == 0,
    {
        proof {
            assert((sample_rate as int) * (config.max_recording_duration_secs as int) <= 96000
                * 3600) by (nonlinear_arith)
                requires
                    sample_rate <= 96000,
                    config.max_recording_duration_secs <= 3600,
            ;
        }
        let max64: u64 = (sample_rate as u64) * config.max_recording_duration_secs;
        let max_samples: usize = max64 as usize;
        ContinuousCapture { sample_rate, max_samples, buffer: Vec::with_capacity(max_samples) }
    }

    /// Take in one sample.  A progress notice is due whenever a whole second
    /// of audio has accumulated; the recorder reports itself full when it
    /// reaches capacity.
    pub fn push_sample(&mut self, sample_bits: u32) -> (r: ContinuousStep)
        requires
            old(self).wf(),
            old(self).buffer@.len() < old(self).max_samples,
        ensures
            final(self).wf(),
            final(self).sample_rate == old(self).sample_rate,
            final(self).max_samples == old(self).max_samples,
            final(self).buffer@ == old(self).buffer@.push(sample_bits),
            r.progress_due == (final(self).buffer@.len() as int % (old(self).sample_rate as int)
                == 0),
            r.full == (final(self).buffer@.len() >= old(self).max_samples),
    {
        self.buffer.push(sample_bits);
        let progress_due = self.buffer.len() % (self.sample_rate as usize) == 0;
        let full = self.buffer.len() >= self.max_samples;
        ContinuousStep { progress_due, full }
    }

    /// End the recording.  When any audio accumulated, it comes back whole,
    /// to be conditioned, normalized, encoded and delivered; otherwise there
    /// is nothing, and the consumer hears an encoding error instead.
    pub fn finish(self) -> (r: Option<Vec<u32>>)
        ensures
            self.buffer@.len() > 0 ==> (r matches Some(v) && v@ == self.buffer@),
            self.buffer@.len() == 0 ==> r is None,
    {
        if self.buffer.len() > 0 {
            Some(self.buffer)
        } else {
            None
        }
    }
}

} // verus!
