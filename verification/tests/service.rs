use base64::engine::general_purpose::STANDARD;
use base64::Engine;
use handy_cli::audio::device::AudioDevice;
use handy_cli::codec::Base64Fault;
use handy_cli::audio::manager::{AudioCommand, CaptureDecision, CaptureLoop};
use handy_cli::server::handlers::{AppError, HealthResponse, RouterState};

#[test]
fn capture_loop_start_stop() {
    let mut c = CaptureLoop::new();
    assert!(!c.is_recording());
    assert_eq!(
        c.decide(AudioCommand::Start { sample_rate: 16000 }),
        CaptureDecision::OpenDevice { sample_rate: 16000 }
    );
    c.opened(true);
    assert!(c.is_recording());
    let second = c.decide(AudioCommand::Start { sample_rate: 8000 });
    assert_eq!(second, CaptureDecision::RefuseAlreadyRecording);
    assert_eq!(second.refusal(), Some("Already recording"));
    assert_eq!(c.decide(AudioCommand::GetBuffer), CaptureDecision::ReadBuffer);
    assert_eq!(c.decide(AudioCommand::IsRecording), CaptureDecision::ReplyRecording(true));
    assert_eq!(c.decide(AudioCommand::Stop), CaptureDecision::StopDevice);
    assert!(!c.is_recording());
    let again = c.decide(AudioCommand::Stop);
    assert_eq!(again, CaptureDecision::RefuseNotRecording);
    assert_eq!(again.refusal(), Some("Not recording"));
    assert_eq!(c.decide(AudioCommand::GetBuffer), CaptureDecision::ReplyEmptyBuffer);
}

#[test]
fn capture_loop_failed_open_holds_nothing() {
    let mut c = CaptureLoop::new();
    c.decide(AudioCommand::Start { sample_rate: 16000 });
    c.opened(false);
    assert!(!c.is_recording());
    assert_eq!(c.decide(AudioCommand::IsRecording), CaptureDecision::ReplyRecording(false));
    assert_eq!(CaptureDecision::StopDevice.refusal(), None);
}

#[test]
fn device_names() {
    let d = AudioDevice::from_reported_name(None, true);
    assert_eq!(d.name, "Unknown");
    assert!(d.is_default);
    let e = AudioDevice::from_reported_name(Some("Mic".to_string()), false);
    assert_eq!(e.name, "Mic");
    assert!(AudioDevice::is_default_name(Some(Some("Mic".into())), Some("Mic".into())));
    assert!(!AudioDevice::is_default_name(Some(Some("Mic".into())), Some("Other".into())));
    assert!(!AudioDevice::is_default_name(None, Some("Mic".into())));
    assert!(AudioDevice::is_default_name(Some(None), None));
    assert!(!AudioDevice::is_default_name(Some(None), Some("Mic".into())));
}

#[test]
fn health_reports_load_state() {
    let s = RouterState::new("whisper".into(), Some("base".into()), "auto".into(), "/m".into());
    let ok = HealthResponse::for_state(&s, true);
    assert_eq!(ok.status, "ok");
    assert_eq!(ok.engine, "whisper");
    assert_eq!(ok.model.as_deref(), Some("base"));
    assert!(ok.loaded);
    let not = HealthResponse::for_state(&s, false);
    assert_eq!(not.status, "model_not_loaded");
    assert!(!not.loaded);
}

#[test]
fn app_error_statuses() {
    let b = AppError::bad_request("x".into());
    assert_eq!(b.status(), 400);
    assert_eq!(b.message(), "x");
    let i = AppError::internal("y".into());
    assert_eq!(i.status(), 500);
    let n = AppError::new(418, "tea".into());
    assert_eq!(n.status(), 418);
    assert_eq!(AppError::load_failure("gone").message(), "Failed to load transcriber: gone");
    assert_eq!(AppError::transcription_failure("bad").message(), "Transcription failed: bad");
    let err = STANDARD.decode("@@@@").unwrap_err();
    let d = AppError::from_fault(Base64Fault::InvalidByte(0, 64));
    assert_eq!(d.status(), 400);
    assert_eq!(d.message(), "Base64 decode error: Invalid symbol 64, offset 0.");
    assert_eq!(d.message(), &format!("Base64 decode error: {}", err));
}
