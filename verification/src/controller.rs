//! Session lifecycle: at most one capture at a time.
//!
//! The controller owns the three pieces of cross-task state — the capturing
//! flag, the presence of the one processing task, and the active
//! configuration.  The surrounding application does the outside work
//! between the calls (opening the stream, spawning and aborting the task,
//! settle delays) and keeps the controller behind one short-held lock, so
//! the check of `begin_start` and the registration of `confirm_start` stay
//! atomic with respect to each other.

use vstd::prelude::*;

use crate::config::VadConfig;
use crate::errors::CaptureError;

verus! {

/// Which pipeline a confirmed start runs.
#[derive(Clone, Copy, Debug, PartialEq, Eq, Structural)]
pub enum CaptureMode {
    /// Speech segmentation, by `VadSegmenter`.
    Vad,
    /// Plain bounded recording, by `ContinuousCapture`.
    Continuous,
}

/// The lifecycle state of capture sessions.
pub struct CaptureController {
    /// What a status query reports.  Set before the task spawns; cleared by
    /// `stop`.
    pub capturing: bool,
    /// Whether a processing task is registered.  Starting while one is
    /// registered fails.
    pub task_registered: bool,
    /// The active configuration; a running capture keeps the snapshot it
    /// was started with.
    pub config: VadConfig,
}

impl CaptureController {
    /// A fresh controller: idle, with the recommended configuration.
    pub fn new() -> (c: CaptureController)
        ensures
            !c.capturing,
            !c.task_registered,
            c.config == VadConfig::recommended(),
    {
        CaptureController {
            capturing: false,
            task_registered: false,
            config: VadConfig::default(),
        }
    }

    /// First half of `start`: refuse when a session is already registered,
    /// otherwise validate and adopt the supplied configuration, if one
    /// came — one that fails validation is rejected with `InvalidConfig`
    /// here, before any stream is opened or task spawned, and leaves the
    /// stored configuration unchanged.  If opening the stream afterwards
    /// fails, no state needs undoing.
    pub fn begin_start(&mut self, config: Option<VadConfig>) -> (r: Result<(), CaptureError>)
        ensures
            final(self).capturing == old(self).capturing,
            final(self).task_registered == old(self).task_registered,
            old(self).task_registered ==> (r matches Err(e) && e is AlreadyCapturing)
                && final(self).config == old(self).config,
            !old(self).task_registered ==> (match config {
                Some(c) => if c.valid() {
                    (r is Ok) && final(self).config == c
                } else {
                    (r matches Err(e) && e is InvalidConfig)
                        && final(self).config == old(self).config
                },
                None => (r is Ok) && final(self).config == old(self).config,
            }),
    {
        if self.task_registered {
            return Err(CaptureError::AlreadyCapturing);
        }
        if let Some(c) = config {
            if !c.is_valid() {
                return Err(CaptureError::InvalidConfig);
            }
            self.config = c;
        }
        Ok(())
    }

    /// Second half of `start`: validate the stream's reported sample rate,
    /// mark the session capturing, register the task, and say which
    /// pipeline it runs.  The capturing flag flips before the task exists,
    /// so a status query right after `start` already reports true.
    pub fn confirm_start(&mut self, sample_rate: u32) -> (r: Result<CaptureMode, CaptureError>)
        ensures
            final(self).config == old(self).config,
            !(8000 <= sample_rate <= 96000) ==> (r matches Err(e) && e is InvalidSampleRate)
                && *final(self) == *old(self),
            (8000 <= sample_rate <= 96000) ==> final(self).capturing
                && final(self).task_registered && (r matches Ok(m) && (m is Vad <==> old(
                self,
            ).config.enabled)),
    {
        if sample_rate < 8000 || sample_rate > 96000 {
            return Err(CaptureError::InvalidSampleRate);
        }
        self.capturing = true;
        self.task_registered = true;
        if self.config.enabled {
            Ok(CaptureMode::Vad)
        } else {
            Ok(CaptureMode::Continuous)
        }
    }

    /// The processing task ended on its own: clear its registration.  The
    /// capturing flag is left for `stop` to clear, as in a session whose
    /// stream ended by itself.
    pub fn task_finished(&mut self)
        ensures
            !final(self).task_registered,
            final(self).capturing == old(self).capturing,
            final(self).config == old(self).config,
    {
        self.task_registered = false;
    }

    /// Stop: deregister the task, if any — the caller aborts it and waits
    /// out the settle delays — and clear the capturing flag.  Idempotent
    /// when nothing runs; reports whether a task had to be aborted.
    pub fn stop(&mut self) -> (had_task: bool)
        ensures
            had_task == old(self).task_registered,
            !final(self).task_registered,
            !final(self).capturing,
            final(self).config == old(self).config,
    {
        let had_task = self.task_registered;
        self.task_registered = false;
        self.capturing = false;
        had_task
    }

    /// The capturing flag, as a consumer queries it.
    pub fn get_capture_status(&self) -> (r: bool)
        ensures
            r == self.capturing,
    {
        self.capturing
    }

    /// The active configuration.
    pub fn get_vad_config(&self) -> (r: VadConfig)
        ensures
            r == self.config,
    {
        self.config
    }

    /// Replace the configuration, after validating its ranges; a capture
    /// already in flight keeps the snapshot it was started with.
    pub fn update_vad_config(&mut self, config: VadConfig) -> (r: Result<(), CaptureError>)
        ensures
            final(self).capturing == old(self).capturing,
            final(self).task_registered == old(self).task_registered,
            config.valid() ==> (r is Ok) && final(self).config == config,
            !config.valid() ==> (r matches Err(e) && e is InvalidConfig)
                && final(self).config == old(self).config,
    {
        if !config.is_valid() {
            return Err(CaptureError::InvalidConfig);
        }
        self.config = config;
        Ok(())
    }
}

} // verus!
