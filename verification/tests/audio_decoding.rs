use base64::engine::general_purpose::STANDARD;
use base64::DecodeError;
use base64::Engine;
use handy_cli::codec::{decimal_text, fault_text, Base64Fault};
use handy_cli::pcm::pcm_samples;
use handy_cli::server::handlers::{decode_request_audio, TranscribeRequest};

fn request(audio: &str, sample_rate: Option<u32>) -> TranscribeRequest {
    TranscribeRequest {
        audio: audio.to_string(),
        language: None,
        sample_rate,
        translate: None,
    }
}

#[test]
fn pcm_reads_little_endian_pairs_and_drops_odd_byte() {
    let s = pcm_samples(&[0x01, 0x00, 0xff, 0xff, 0x00, 0x80, 0xff, 0x7f, 0x07]);
    assert_eq!(s, vec![1, -1, -32768, 32767]);
}

#[test]
fn pcm_of_empty_is_empty() {
    assert!(pcm_samples(&[]).is_empty());
}

#[test]
fn one_shot_audio_decodes_with_default_rate() {
    let text = STANDARD.encode([0x10u8, 0x00, 0x20, 0x00]);
    let a = decode_request_audio(&request(&text, None)).unwrap();
    assert_eq!(a.samples, vec![16, 32]);
    assert_eq!(a.sample_rate, 16000);
}

#[test]
fn one_shot_audio_keeps_declared_rate() {
    let text = STANDARD.encode([0x10u8, 0x00]);
    let a = decode_request_audio(&request(&text, Some(8000))).unwrap();
    assert_eq!(a.samples, vec![16]);
    assert_eq!(a.sample_rate, 8000);
}

#[test]
fn one_shot_invalid_base64_is_bad_request() {
    let e = decode_request_audio(&request("!!!!", None)).unwrap_err();
    assert_eq!(e.status(), 400);
    assert_eq!(e.message(), "Invalid base64 audio: Invalid symbol 33, offset 0.");
    let crate_text = STANDARD.decode("!!!!").unwrap_err().to_string();
    assert_eq!(e.message(), &format!("Invalid base64 audio: {}", crate_text));
}

#[test]
fn fault_texts_match_the_crate() {
    for text in ["AAAAA", "AB==", "A!AA", "AA=A"] {
        let err = STANDARD.decode(text).unwrap_err();
        let fault = match err {
            DecodeError::InvalidByte(i, b) => Base64Fault::InvalidByte(i, b),
            DecodeError::InvalidLength(n) => Base64Fault::InvalidLength(n),
            DecodeError::InvalidLastSymbol(i, b) => Base64Fault::InvalidLastSymbol(i, b),
            DecodeError::InvalidPadding => Base64Fault::InvalidPadding,
        };
        assert_eq!(fault_text(fault), err.to_string(), "{}", text);
    }
    assert_eq!(fault_text(Base64Fault::InvalidPadding), "Invalid padding");
}

#[test]
fn decimal_text_writes_digits() {
    assert_eq!(decimal_text(0), "0");
    assert_eq!(decimal_text(7), "7");
    assert_eq!(decimal_text(4711), "4711");
    assert_eq!(decimal_text(u64::MAX), u64::MAX.to_string());
}

#[test]
fn one_shot_single_byte_has_no_samples() {
    let e = decode_request_audio(&request("AA==", None)).unwrap_err();
    assert_eq!(e.status(), 400);
    assert_eq!(e.message(), "No audio samples found");
}

#[test]
fn one_shot_empty_audio_has_no_samples() {
    let e = decode_request_audio(&request("", None)).unwrap_err();
    assert_eq!(e.status(), 400);
    assert_eq!(e.message(), "No audio samples found");
}
