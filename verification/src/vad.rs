//! The speech/silence segmenter.
//!
//! A stream of samples is cut into hop-sized frames and classified frame by
//! frame.  While idle, frames roll through a bounded look-back window; when
//! speech begins, the window seeds the utterance so its onset is not
//! clipped.  Silence inside an utterance is kept until a full hangover of
//! silent frames has passed; the utterance is then trimmed of most of its
//! trailing silence and emitted, or discarded when it held too few speech
//! frames.  A safety cap flushes any utterance that outgrows thirty seconds
//! of audio, so memory stays bounded under pathological input.
//!
//! Samples travel through the segmenter as opaque 32-bit words that are
//! moved but never read; the caller conditions each frame and measures its
//! RMS and peak levels, and hands both in, in millionths of full scale.

use vstd::prelude::*;

use crate::config::VadConfig;

verus! {

/// What one frame did to the segmenter, beyond mutating its state.
pub enum StepOutcome {
    /// Nothing left the segmenter.
    Continue,
    /// A finished utterance left the segmenter and should be normalized,
    /// encoded, and delivered.
    Emit(Vec<u32>),
    /// An utterance ended but held too few speech frames; it was dropped and
    /// the consumer should hear a discard notice.
    Discard,
}

/// The full result of one frame: whether speech began on this frame, and
/// what, if anything, left the segmenter.
pub struct VadStep {
    pub speech_started: bool,
    pub outcome: StepOutcome,
}

/// The segmenter after one frame, stated over mathematical sequences.
pub ghost struct VadStepModel {
    pub pre_speech: Seq<u32>,
    pub speech_buffer: Seq<u32>,
    pub in_speech: bool,
    pub speech_chunks: int,
    pub silence_chunks: int,
    pub started: bool,
    pub emitted: Option<Seq<u32>>,
    pub discarded: bool,
}

/// The speech/silence state machine of one capture session.
pub struct VadSegmenter {
    /// The configuration the session was started with.
    pub config: VadConfig,
    /// Sample rate of the stream, in the supported 8000..=96000 Hz band.
    pub sample_rate: u32,
    /// Look-back window, populated only while idle.
    pub pre_speech: Vec<u32>,
    /// The utterance being accumulated, non-empty only while in speech.
    pub speech_buffer: Vec<u32>,
    /// Whether the machine is inside an utterance.
    pub in_speech: bool,
    /// Frames of the current utterance that classified as speech.
    pub speech_chunks: usize,
    /// Consecutive silent frames seen since the last speech frame.
    pub silence_chunks: usize,
}

impl VadSegmenter {
    /// Capacity of the look-back window, in samples.
    pub open spec fn pre_capacity(self) -> int {
        self.config.pre_speech_chunks * self.config.hop_size
    }

    /// The safety cap: an utterance may not outgrow thirty seconds of audio.
    pub open spec fn max_utterance_samples(self) -> int {
        30 * self.sample_rate
    }

    /// Trailing silence retained on an emitted utterance: 0.15 seconds.
    pub open spec fn keep_silence_samples(self) -> int {
        self.sample_rate * 15 / 100
    }

    /// A frame is speech when either level clears its threshold.
    pub open spec fn classifies_speech(self, rms: u64, peak: u64) -> bool {
        rms > self.config.sensitivity_rms || peak > self.config.peak_threshold
    }

    /// Well-formedness, established by `new` and preserved by every frame:
    /// the look-back window never outgrows its capacity and is empty during
    /// speech; outside speech nothing is buffered and the counters are
    /// cleared; inside speech the hangover counter stays below its bound and
    /// the utterance stays within the safety cap plus the silence being
    /// collected, which also bounds the speech-frame counter.
    pub open spec fn wf(self) -> bool {
        &&& self.config.fits()
        &&& 8000 <= self.sample_rate <= 96000
        &&& self.pre_speech@.len() <= self.pre_capacity()
        &&& (self.in_speech ==> self.pre_speech@.len() == 0)
        &&& (!self.in_speech ==> self.speech_buffer@.len() == 0 && self.speech_chunks == 0
            && self.silence_chunks == 0)
        &&& (self.in_speech ==> self.silence_chunks == 0 || self.silence_chunks
            < self.config.silence_chunks)
        &&& (self.in_speech ==> self.speech_buffer@.len() <= self.max_utterance_samples()
            + self.silence_chunks * self.config.hop_size)
        &&& (self.in_speech ==> 1 <= self.speech_chunks <= self.speech_buffer@.len())
    }

    /// What one frame does, stated as a function of the state before it.
    ///
    /// This mirrors the transitions of the state machine: a speech frame
    /// starts or extends an utterance (flushing it when the safety cap is
    /// exceeded); a silent frame inside speech extends the utterance and,
    /// once a full hangover has passed, ends it — trimmed and emitted when
    /// enough speech frames accumulated, discarded otherwise; a silent frame
    /// outside speech rolls the look-back window.
    pub open spec fn step_model(pre: VadSegmenter, frame: Seq<u32>, rms: u64, peak: u64) -> (m:
        VadStepModel) {
        let cfg = pre.config;
        if pre.classifies_speech(rms, peak) {
            let started = !pre.in_speech;
            let window_after = if started {
                Seq::<u32>::empty()
            } else {
                pre.pre_speech@
            };
            let seeded = if started {
                pre.speech_buffer@ + pre.pre_speech@
            } else {
                pre.speech_buffer@
            };
            let grown = seeded + frame;
            let chunks = if started {
                1int
            } else {
                pre.speech_chunks + 1
            };
            if grown.len() > pre.max_utterance_samples() {
                VadStepModel {
                    pre_speech: window_after,
                    speech_buffer: Seq::empty(),
                    in_speech: false,
                    speech_chunks: 0,
                    silence_chunks: 0,
                    started,
                    emitted: Some(grown),
                    discarded: false,
                }
            } else {
                VadStepModel {
                    pre_speech: window_after,
                    speech_buffer: grown,
                    in_speech: true,
                    speech_chunks: chunks,
                    silence_chunks: 0,
                    started,
                    emitted: None,
                    discarded: false,
                }
            }
        } else if pre.in_speech {
            let grown = pre.speech_buffer@ + frame;
            let sil = pre.silence_chunks + 1;
            if sil >= cfg.silence_chunks {
                if pre.speech_chunks >= cfg.min_speech_chunks && grown.len() > 0 {
                    let silence_samples = sil * cfg.hop_size;
                    let keep = pre.keep_silence_samples();
                    let trim = if silence_samples > keep {
                        silence_samples - keep
                    } else {
                        0
                    };
                    let out = if grown.len() > trim {
                        grown.take(grown.len() - trim)
                    } else {
                        grown
                    };
                    VadStepModel {
                        pre_speech: pre.pre_speech@,
                        speech_buffer: Seq::empty(),
                        in_speech: false,
                        speech_chunks: 0,
                        silence_chunks: 0,
                        started: false,
                        emitted: Some(out),
                        discarded: false,
                    }
                } else {
                    VadStepModel {
                        pre_speech: pre.pre_speech@,
                        speech_buffer: Seq::empty(),
                        in_speech: false,
                        speech_chunks: 0,
                        silence_chunks: 0,
                        started: false,
                        emitted: None,
                        discarded: true,
                    }
                }
            } else {
                VadStepModel {
                    pre_speech: pre.pre_speech@,
                    speech_buffer: grown,
                    in_speech: true,
                    speech_chunks: pre.speech_chunks as int,
                    silence_chunks: sil,
                    started: false,
                    emitted: None,
                    discarded: false,
                }
            }
        } else {
            let combined = pre.pre_speech@ + frame;
            let cap = pre.pre_capacity();
            let kept = if combined.len() > cap {
                combined.skip(combined.len() - cap)
            } else {
                combined
            };
            VadStepModel {
                pre_speech: kept,
                speech_buffer: pre.speech_buffer@,
                in_speech: false,
                speech_chunks: 0,
                silence_chunks: 0,
                started: false,
                emitted: None,
                discarded: false,
            }
        }
    }

    /// A fresh segmenter: idle, with empty buffers.
    pub fn new(config: VadConfig, sample_rate: u32) -> (s: VadSegmenter)
        requires
            config.fits(),
            8000 <= sample_rate <= 96000,
        ensures
            s.wf(),
            s.config == config,
            s.sample_rate == sample_rate,
            s.pre_speech@.len() == 0,
            s.speech_buffer@.len() == 0,
            !s.in_speech,
    {
        VadSegmenter {
            config,
            sample_rate,
            pre_speech: Vec::new(),
            speech_buffer: Vec::new(),
            in_speech: false,
            speech_chunks: 0,
            silence_chunks: 0,
        }
    }

    /// Feed one conditioned, hop-sized frame together with its measured RMS
    /// and peak levels (in millionths of full scale).  The new state and the
    /// result are exactly those of `step_model`.
    pub fn process_frame(&mut self, frame: Vec<u32>, rms: u64, peak: u64) -> (r: VadStep)
        requires
            old(self).wf(),
            frame@.len() == old(self).config.hop_size,
        ensures
            final(self).wf(),
            final(self).config == old(self).config,
            final(self).sample_rate == old(self).sample_rate,
            ({
                let m = VadSegmenter::step_model(*old(self), frame@, rms, peak);
                &&& final(self).pre_speech@ == m.pre_speech
                &&& final(self).speech_buffer@ == m.speech_buffer
                &&& final(self).in_speech == m.in_speech
                &&& final(self).speech_chunks == m.speech_chunks
                &&& final(self).silence_chunks == m.silence_chunks
                &&& r.speech_started == m.started
                &&& match r.outcome {
                    StepOutcome::Emit(v) => m.emitted == Some(v@) && !m.discarded,
                    StepOutcome::Discard => m.emitted is None && m.discarded,
                    StepOutcome::Continue => m.emitted is None && !m.discarded,
                }
            }),
    {
        let ghost pre = *self;
        let mut frame = frame;
        let is_speech = rms > self.config.sensitivity_rms as u64 || peak
            > self.config.peak_threshold as u64;
        let max_samples = (self.sample_rate as usize) * 30;
        proof {
            assert(pre.silence_chunks * pre.config.hop_size <= 0x1000 * 0x1_0000)
                by (nonlinear_arith)
                requires
                    pre.silence_chunks <= 0x1000,
                    pre.config.hop_size <= 0x1_0000,
            ;
        }

        if is_speech {
            let started = !self.in_speech;
            if started {
                self.in_speech = true;
                self.speech_chunks = 0;
                self.speech_buffer.append(&mut self.pre_speech);
            }
            self.speech_chunks = self.speech_chunks + 1;
            self.speech_buffer.append(&mut frame);
            self.silence_chunks = 0;
            if self.speech_buffer.len() > max_samples {
                let out = self.speech_buffer.split_off(0);
                self.in_speech = false;
                self.speech_chunks = 0;
                return VadStep { speech_started: started, outcome: StepOutcome::Emit(out) };
            }
            return VadStep { speech_started: started, outcome: StepOutcome::Continue };
        }

        if self.in_speech {
            self.silence_chunks = self.silence_chunks + 1;
            self.speech_buffer.append(&mut frame);
            if self.silence_chunks >= self.config.silence_chunks {
                let outcome = if self.speech_chunks >= self.config.min_speech_chunks
                    && self.speech_buffer.len() > 0 {
                    // Trim the collected silence down to a short natural tail.
                    proof {
                        assert(self.silence_chunks * self.config.hop_size <= 0x1001 * 0x1_0000)
                            by (nonlinear_arith)
                            requires
                                self.silence_chunks <= 0x1001,
                                self.config.hop_size <= 0x1_0000,
                        ;
                    }
                    let silence_samples = self.silence_chunks * self.config.hop_size;
                    let keep = (self.sample_rate as usize) * 15 / 100;
                    let trim = if silence_samples > keep {
                        silence_samples - keep
                    } else {
                        0
                    };
                    if self.speech_buffer.len() > trim {
                        let kept_len = self.speech_buffer.len() - trim;
                        self.speech_buffer.truncate(kept_len);
                    }
                    let out = self.speech_buffer.split_off(0);
                    StepOutcome::Emit(out)
                } else {
                    self.speech_buffer.clear();
                    StepOutcome::Discard
                };
                self.in_speech = false;
                self.silence_chunks = 0;
                self.speech_chunks = 0;
                return VadStep { speech_started: false, outcome };
            }
            proof {
                assert((pre.silence_chunks + 1) * pre.config.hop_size == pre.silence_chunks
                    * pre.config.hop_size + pre.config.hop_size) by (nonlinear_arith);
            }
            return VadStep { speech_started: false, outcome: StepOutcome::Continue };
        }

        // Idle: roll the look-back window, evicting its oldest samples.
        self.pre_speech.append(&mut frame);
        proof {
            assert(self.config.pre_speech_chunks * self.config.hop_size <= 0x1000 * 0x1_0000)
                by (nonlinear_arith)
                requires
                    self.config.pre_speech_chunks <= 0x1000,
                    self.config.hop_size <= 0x1_0000,
            ;
        }
        let cap = self.config.pre_speech_chunks * self.config.hop_size;
        if self.pre_speech.len() > cap {
            let excess = self.pre_speech.len() - cap;
            let tail = self.pre_speech.split_off(excess);
            self.pre_speech = tail;
        }
        VadStep { speech_started: false, outcome: StepOutcome::Continue }
    }
}

/// The safety caps hold in every reachable state: the look-back window
/// never outgrows its capacity, and the utterance buffer never outgrows
/// thirty seconds of audio plus one hangover's worth of collected silence —
/// memory stays bounded however pathological the input.
pub proof fn lemma_buffers_stay_bounded(s: VadSegmenter)
    requires
        s.wf(),
    ensures
        s.pre_speech@.len() <= s.config.pre_speech_chunks * s.config.hop_size,
        s.speech_buffer@.len() <= 30 * s.sample_rate + s.config.silence_chunks
            * s.config.hop_size,
{
    if s.in_speech {
        assert(s.silence_chunks * s.config.hop_size <= s.config.silence_chunks
            * s.config.hop_size) by (nonlinear_arith)
            requires
                s.silence_chunks <= s.config.silence_chunks,
        ;
    }
}

/// Cuts the incoming sample stream into hop-sized frames; samples below a
/// full hop wait for more input.
pub struct FrameChunker {
    /// Samples per frame.
    pub hop_size: usize,
    /// Samples waiting for the frame to fill.
    pub pending: Vec<u32>,
}

impl FrameChunker {
    /// Fewer samples are waiting than fill a frame.
    pub open spec fn wf(self) -> bool {
        &&& 0 < self.hop_size
        &&& self.pending@.len() < self.hop_size
    }

    /// An empty chunker cutting frames of `hop_size` samples.
    pub fn new(hop_size: usize) -> (c: FrameChunker)
        requires
            hop_size > 0,
        ensures
            c.wf(),
            c.hop_size == hop_size,
            c.pending@.len() == 0,
    {
        FrameChunker { hop_size, pending: Vec::new() }
    }

    /// Take in one sample word; hands back a full frame exactly when this
    /// sample completes one.
    pub fn push(&mut self, sample_bits: u32) -> (r: Option<Vec<u32>>)
        requires
            old(self).wf(),
        ensures
            final(self).wf(),
            final(self).hop_size == old(self).hop_size,
            old(self).pending@.len() + 1 == old(self).hop_size ==> (r matches Some(f)
                && f@ == old(self).pending@.push(sample_bits)
                && final(self).pending@.len() == 0),
            old(self).pending@.len() + 1 < old(self).hop_size ==> (r is None
                && final(self).pending@ == old(self).pending@.push(sample_bits)),
    {
        self.pending.push(sample_bits);
        if self.pending.len() == self.hop_size {
            let frame = self.pending.split_off(0);
            Some(frame)
        } else {
            None
        }
    }
}

} // verus!
