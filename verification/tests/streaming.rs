use handy_cli::server::handlers::StreamParams;
use handy_cli::server::stream::{StreamAction, StreamEvent, StreamPhase, StreamSession};

fn session() -> StreamSession {
    StreamSession::new(StreamParams::default())
}

#[test]
fn session_defaults() {
    let s = session();
    assert_eq!(s.sample_rate(), 16000);
    assert!(!s.translate());
    assert!(s.language().is_none());
    assert_eq!(s.phase(), StreamPhase::Receiving);
    let s2 = StreamSession::new(StreamParams {
        sample_rate: Some(44100),
        language: Some("en".to_string()),
        translate: Some(true),
    });
    assert_eq!(s2.sample_rate(), 44100);
    assert!(s2.translate());
    assert_eq!(s2.language().as_deref(), Some("en"));
}

#[test]
fn opening_event_is_partial() {
    match StreamSession::opening_event() {
        StreamEvent::Transcript { text, partial } => {
            assert_eq!(text, "Receiving audio...");
            assert!(partial);
        }
        other => panic!("unexpected {:?}", other),
    }
}

#[test]
fn groups_split_across_pieces_are_joined() {
    let mut s = session();
    assert!(matches!(s.on_piece(b"EAA"), StreamAction::Wait));
    match s.on_piece(b"gAA==") {
        StreamAction::Progress { received_samples, transcribe_partial } => {
            assert_eq!(received_samples, 2);
            assert!(!transcribe_partial);
        }
        other => panic!("unexpected {:?}", other),
    }
    assert_eq!(s.samples(), vec![16, 32]);
    assert!(matches!(s.on_end(), StreamAction::LoadTranscriber));
    assert_eq!(s.phase(), StreamPhase::Loading);
    assert!(matches!(s.on_loaded(None), StreamAction::Transcribe));
    match s.on_transcript(Ok("hello".to_string())) {
        StreamAction::Finish(StreamEvent::Transcript { text, partial }) => {
            assert_eq!(text, "hello");
            assert!(!partial);
        }
        other => panic!("unexpected {:?}", other),
    }
    assert_eq!(s.phase(), StreamPhase::Done);
}

#[test]
fn odd_decoded_byte_waits_for_the_next_group() {
    let mut s = session();
    match s.on_piece(b"EAAgAA") {
        StreamAction::Progress { received_samples, .. } => assert_eq!(received_samples, 1),
        other => panic!("unexpected {:?}", other),
    }
    assert_eq!(s.samples(), vec![16]);
    assert!(matches!(s.on_end(), StreamAction::LoadTranscriber));
    assert_eq!(s.samples(), vec![16, 32]);
}

#[test]
fn audio_does_not_depend_on_the_split() {
    let mut split = session();
    match split.on_piece(b"AQAB") {
        StreamAction::Progress { received_samples, .. } => assert_eq!(received_samples, 1),
        other => panic!("unexpected {:?}", other),
    }
    match split.on_piece(b"AAAA") {
        StreamAction::Progress { received_samples, .. } => assert_eq!(received_samples, 3),
        other => panic!("unexpected {:?}", other),
    }
    let mut whole = session();
    match whole.on_piece(b"AQABAAAA") {
        StreamAction::Progress { received_samples, .. } => assert_eq!(received_samples, 3),
        other => panic!("unexpected {:?}", other),
    }
    assert_eq!(split.samples(), vec![1, 1, 0]);
    assert_eq!(whole.samples(), split.samples());
    let mut bytewise = session();
    for b in b"AQABAAAA" {
        bytewise.on_piece(&[*b]);
    }
    assert_eq!(bytewise.samples(), vec![1, 1, 0]);
    assert!(matches!(split.on_end(), StreamAction::LoadTranscriber));
    assert!(matches!(whole.on_end(), StreamAction::LoadTranscriber));
    assert_eq!(whole.samples(), split.samples());
}

#[test]
fn a_partial_transcription_each_second() {
    let mut s = session();
    // 10667 groups decode to 32001 bytes: 16000 samples and one byte over
    let second = "AAAA".repeat(10667);
    match s.on_piece(second.as_bytes()) {
        StreamAction::Progress { received_samples, transcribe_partial } => {
            assert_eq!(received_samples, 16000);
            assert!(transcribe_partial);
        }
        other => panic!("unexpected {:?}", other),
    }
    assert_eq!(s.sample_count(), 16000);
    match s.on_piece(b"AAAA") {
        StreamAction::Progress { received_samples, transcribe_partial } => {
            assert_eq!(received_samples, 16002);
            assert!(!transcribe_partial);
        }
        other => panic!("unexpected {:?}", other),
    }
    match s.on_piece(second.as_bytes()) {
        StreamAction::Progress { received_samples, transcribe_partial } => {
            assert_eq!(received_samples, 32002);
            assert!(transcribe_partial);
        }
        other => panic!("unexpected {:?}", other),
    }
    assert_eq!(s.phase(), StreamPhase::Receiving);
}

#[test]
fn partial_transcripts_are_marked_partial() {
    match StreamSession::partial_transcript(Ok("so far".to_string())) {
        Some(StreamEvent::Transcript { text, partial }) => {
            assert_eq!(text, "so far");
            assert!(partial);
        }
        other => panic!("unexpected {:?}", other),
    }
    assert!(StreamSession::partial_transcript(Err("busy".to_string())).is_none());
}

#[test]
fn padded_pieces_are_decoded_one_after_the_other() {
    let mut s = session();
    assert!(matches!(
        s.on_piece(b"EAA="),
        StreamAction::Progress { received_samples: 1, transcribe_partial: false }
    ));
    assert!(matches!(
        s.on_piece(b"IAA="),
        StreamAction::Progress { received_samples: 2, transcribe_partial: false }
    ));
    assert_eq!(s.samples(), vec![16, 32]);
    assert!(matches!(s.on_end(), StreamAction::LoadTranscriber));
    // padding inside one batch of groups does not decode
    let mut one = session();
    assert!(matches!(one.on_piece(b"EAA=IAA="), StreamAction::Abort));
    assert_eq!(one.phase(), StreamPhase::Done);
}

#[test]
fn a_padded_piece_then_more_groups_is_transcribed() {
    let mut s = session();
    assert!(matches!(s.on_piece(b"AA=="), StreamAction::Progress { received_samples: 0, .. }));
    assert!(matches!(s.on_piece(b"AAAA"), StreamAction::Progress { received_samples: 2, .. }));
    assert!(matches!(s.on_end(), StreamAction::LoadTranscriber));
    assert_eq!(s.samples(), vec![0, 0]);
}

#[test]
fn a_padded_piece_then_a_short_tail_is_transcribed() {
    let mut s = session();
    assert!(matches!(s.on_piece(b"AA=="), StreamAction::Progress { received_samples: 0, .. }));
    assert!(matches!(s.on_piece(b"AAA"), StreamAction::Wait));
    assert!(matches!(s.on_end(), StreamAction::LoadTranscriber));
    assert_eq!(s.samples(), vec![0]);
}

#[test]
fn leftover_text_is_padded_at_end() {
    let mut s = session();
    assert!(matches!(s.on_piece(b"EAA"), StreamAction::Wait));
    assert!(matches!(s.on_end(), StreamAction::LoadTranscriber));
    assert_eq!(s.samples(), vec![16]);
}

#[test]
fn empty_body_reports_no_audio() {
    let mut s = session();
    match s.on_end() {
        StreamAction::Finish(StreamEvent::Error { message }) => {
            assert_eq!(message, "No audio data received")
        }
        other => panic!("unexpected {:?}", other),
    }
    assert_eq!(s.phase(), StreamPhase::Done);
}

#[test]
fn invalid_piece_aborts_silently() {
    let mut s = session();
    assert!(matches!(s.on_piece(b"!!!!"), StreamAction::Abort));
    assert_eq!(s.phase(), StreamPhase::Done);
    assert!(matches!(s.on_end(), StreamAction::Wait));
    assert!(matches!(s.on_piece(b"EAAg"), StreamAction::Wait));
}

#[test]
fn body_error_aborts() {
    let mut s = session();
    assert!(matches!(s.on_body_error(), StreamAction::Abort));
    assert!(matches!(s.on_end(), StreamAction::Wait));
}

#[test]
fn load_failure_is_reported() {
    let mut s = session();
    s.on_piece(b"EAAgAA==");
    s.on_end();
    match s.on_loaded(Some("no model".to_string())) {
        StreamAction::Finish(StreamEvent::Error { message }) => {
            assert_eq!(message, "Failed to load transcriber: no model")
        }
        other => panic!("unexpected {:?}", other),
    }
}

#[test]
fn transcription_failure_is_reported() {
    let mut s = session();
    s.on_piece(b"EAAgAA==");
    s.on_end();
    s.on_loaded(None);
    match s.on_transcript(Err("boom".to_string())) {
        StreamAction::Finish(StreamEvent::Error { message }) => {
            assert_eq!(message, "Transcription error: boom")
        }
        other => panic!("unexpected {:?}", other),
    }
}

#[test]
fn resample_failure_is_reported() {
    let mut s = session();
    s.on_piece(b"EAAgAA==");
    s.on_end();
    s.on_loaded(None);
    match s.on_resample_error("rate") {
        StreamAction::Finish(StreamEvent::Error { message }) => {
            assert_eq!(message, "Resample error: rate")
        }
        other => panic!("unexpected {:?}", other),
    }
}

#[test]
fn steps_out_of_order_are_ignored() {
    let mut s = session();
    assert!(matches!(s.on_loaded(None), StreamAction::Wait));
    assert!(matches!(s.on_transcript(Ok("x".to_string())), StreamAction::Wait));
    assert_eq!(s.phase(), StreamPhase::Receiving);
}

#[test]
fn pending_text_stays_below_a_group() {
    let mut s = session();
    s.on_piece(b"EA");
    s.on_piece(b"AgAA");
    // "EAAgAA": one group decoded, two characters wait
    assert_eq!(s.samples(), vec![16]);
    s.on_piece(b"==");
    // "EAAgAA==" decodes to four bytes
    assert_eq!(s.samples(), vec![16, 32]);
}

#[test]
fn invalid_utf8_is_read_with_replacement_characters() {
    let mut s = session();
    // 0xff becomes U+FFFD, three bytes that wait for a fourth
    assert!(matches!(s.on_piece(&[0xff]), StreamAction::Wait));
    // with "A" they form a group that is not base64
    assert!(matches!(s.on_piece(b"A"), StreamAction::Abort));
}

#[test]
fn whole_group_pieces_accumulate() {
    let mut s = session();
    assert!(matches!(
        s.on_piece(b"EAAg"),
        StreamAction::Progress { received_samples: 1, transcribe_partial: false }
    ));
    assert!(matches!(
        s.on_piece(b"AAAA"),
        StreamAction::Progress { received_samples: 3, transcribe_partial: false }
    ));
    assert_eq!(s.samples(), vec![16, 32, 0]);
}
