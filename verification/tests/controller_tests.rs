//! Session lifecycle: the controller's start/stop/configure decisions.

use freely_core::config::VadConfig;
use freely_core::controller::CaptureController;
use freely_core::controller::CaptureMode;
use freely_core::errors::CaptureError;

#[test]
fn start_twice_without_stop_fails_with_already_capturing() {
    let mut c = CaptureController::new();
    assert!(c.begin_start(None).is_ok());
    assert_eq!(c.confirm_start(16000).unwrap(), CaptureMode::Vad);

    let err = c.begin_start(None).unwrap_err();
    assert_eq!(err, CaptureError::AlreadyCapturing);
    assert_eq!(err.message(), "Capture already running");
}

#[test]
fn out_of_band_sample_rate_rejected_at_start() {
    let mut c = CaptureController::new();
    assert!(c.begin_start(None).is_ok());
    assert_eq!(c.confirm_start(7999).unwrap_err(), CaptureError::InvalidSampleRate);
    assert_eq!(c.confirm_start(96001).unwrap_err(), CaptureError::InvalidSampleRate);
    assert!(!c.get_capture_status(), "a refused start leaves the controller idle");
    // The band edges are accepted.
    assert!(c.confirm_start(8000).is_ok());
}

#[test]
fn status_flips_at_start_and_clears_only_on_stop() {
    let mut c = CaptureController::new();
    assert!(!c.get_capture_status());
    c.begin_start(None).unwrap();
    c.confirm_start(44100).unwrap();
    assert!(c.get_capture_status(), "capturing is visible right after start");

    // The stream ends on its own: the task deregisters, the flag stays.
    c.task_finished();
    assert!(c.get_capture_status());

    assert!(!c.stop(), "no task left to abort");
    assert!(!c.get_capture_status());
    assert!(!c.stop(), "stop is idempotent");
}

#[test]
fn stop_reports_whether_a_task_was_aborted() {
    let mut c = CaptureController::new();
    c.begin_start(None).unwrap();
    c.confirm_start(44100).unwrap();
    assert!(c.stop(), "the running task had to be aborted");
    assert!(c.begin_start(None).is_ok(), "a new session may start after stop");
}

#[test]
fn continuous_mode_selected_when_vad_disabled() {
    let mut c = CaptureController::new();
    let config = VadConfig {
        enabled: false,
        ..VadConfig::default()
    };
    c.begin_start(Some(config)).unwrap();
    assert_eq!(c.confirm_start(16000).unwrap(), CaptureMode::Continuous);
    assert_eq!(c.get_vad_config(), config, "start adopts the supplied configuration");
}

#[test]
fn start_rejects_an_invalid_supplied_config() {
    let mut c = CaptureController::new();

    let too_sensitive = VadConfig {
        sensitivity_rms: 1_000_001,
        ..VadConfig::default()
    };
    assert_eq!(c.begin_start(Some(too_sensitive)).unwrap_err(), CaptureError::InvalidConfig);

    let too_long = VadConfig {
        max_recording_duration_secs: 3601,
        ..VadConfig::default()
    };
    assert_eq!(c.begin_start(Some(too_long)).unwrap_err(), CaptureError::InvalidConfig);

    // The rejection happens before any session state changes: the stored
    // configuration stays, nothing is capturing, and a valid start still
    // goes through afterwards.
    assert_eq!(c.get_vad_config(), VadConfig::default());
    assert!(!c.get_capture_status());
    let wanted = VadConfig {
        silence_chunks: 30,
        ..VadConfig::default()
    };
    assert!(c.begin_start(Some(wanted)).is_ok());
    assert_eq!(c.get_vad_config(), wanted);
}

#[test]
fn update_config_validates_ranges() {
    let mut c = CaptureController::new();

    let too_sensitive = VadConfig {
        sensitivity_rms: 1_000_001,
        ..VadConfig::default()
    };
    assert_eq!(c.update_vad_config(too_sensitive).unwrap_err(), CaptureError::InvalidConfig);

    let too_long = VadConfig {
        max_recording_duration_secs: 3601,
        ..VadConfig::default()
    };
    assert_eq!(c.update_vad_config(too_long).unwrap_err(), CaptureError::InvalidConfig);
    assert_eq!(c.get_vad_config(), VadConfig::default(), "a refused update changes nothing");

    let wanted = VadConfig {
        sensitivity_rms: 1_000_000,
        max_recording_duration_secs: 3600,
        ..VadConfig::default()
    };
    assert!(c.update_vad_config(wanted).is_ok());
    assert_eq!(c.get_vad_config(), wanted);
}

#[test]
fn default_config_holds_the_recommended_values() {
    let c = VadConfig::default();
    assert!(c.enabled);
    assert_eq!(c.hop_size, 1024);
    assert_eq!(c.sensitivity_rms, 12_000);
    assert_eq!(c.peak_threshold, 35_000);
    assert_eq!(c.silence_chunks, 45);
    assert_eq!(c.min_speech_chunks, 7);
    assert_eq!(c.pre_speech_chunks, 12);
    assert_eq!(c.noise_gate_threshold, 3_000);
    assert_eq!(c.max_recording_duration_secs, 180);
}
