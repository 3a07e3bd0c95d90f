use handy_cli::server::handlers::{
    default_model, engine_kind, model_file, LoadStep, RouterState, TranscriberKind,
};
use handy_cli::transcriber::moonshine::{variant_for_directory, MoonshineVariant};
use handy_cli::transcriber::{normalize_language, EngineType};

fn state(engine: &str, model: Option<&str>, language: &str, dir: &str) -> RouterState {
    RouterState::new(
        engine.to_string(),
        model.map(|m| m.to_string()),
        language.to_string(),
        dir.to_string(),
    )
}

#[test]
fn engine_type_parses_without_case() {
    assert_eq!(EngineType::try_from("WHISPER").unwrap(), EngineType::Whisper);
    assert_eq!(EngineType::try_from("SenseVoice").unwrap(), EngineType::SenseVoice);
    assert_eq!(EngineType::try_from("wHiSpEr").unwrap(), EngineType::Whisper);
    assert_eq!(EngineType::try_from("parakeet").unwrap_err(), "Unknown engine: parakeet");
}

#[test]
fn chinese_variants_normalize_to_zh() {
    assert_eq!(normalize_language("zh-Hans"), "zh");
    assert_eq!(normalize_language("zh-Hant"), "zh");
    assert_eq!(normalize_language("en"), "en");
    assert_eq!(normalize_language(&normalize_language("zh-Hant")), "zh");
}

#[test]
fn moonshine_variant_from_directory_name() {
    assert_eq!(variant_for_directory("moonshine-base"), MoonshineVariant::Base);
    assert_eq!(variant_for_directory("moonshine-tiny-streaming-en"), MoonshineVariant::Tiny);
    assert_eq!(variant_for_directory(""), MoonshineVariant::Tiny);
    assert_eq!(variant_for_directory("database"), MoonshineVariant::Base);
}

#[test]
fn default_models_per_engine() {
    assert_eq!(default_model("sensevoice"), "sense-voice-int8");
    assert_eq!(default_model("whisper"), "small");
    assert_eq!(default_model("parakeet"), "parakeet-tdt-0.6b-v2");
    assert_eq!(default_model("moonshinestreaming"), "moonshine-tiny-streaming-en");
    assert_eq!(default_model("gigaam-v3"), "gigaam-v3-e2e-ctc");
    assert_eq!(default_model("canary-1b"), "canary-1b-v2");
    assert_eq!(default_model("cohere"), "cohere-int8");
    assert_eq!(default_model("anything"), "small");
}

#[test]
fn engine_kinds() {
    assert_eq!(engine_kind("parakeet-v3"), Some(TranscriberKind::Parakeet));
    assert_eq!(engine_kind("moonshine-medium-streaming-en"), Some(TranscriberKind::Moonshine));
    assert_eq!(engine_kind("canary-180m"), Some(TranscriberKind::Canary));
    assert_eq!(engine_kind("Whisper"), None);
    assert_eq!(TranscriberKind::GigaAM.label(), "GigaAM");
}

#[test]
fn whisper_models_are_single_files() {
    assert_eq!(model_file("whisper", "small"), "ggml-small.bin");
    assert_eq!(model_file("sensevoice", "sense-voice-int8"), "sense-voice-int8");
}

#[test]
fn missing_model_is_reported_with_download_hint() {
    let s = state("sensevoice", None, "auto", "/no/such/dir-4711");
    assert_eq!(s.model_path(), "/no/such/dir-4711/sense-voice-int8");
    let e = s.load_transcriber(None).unwrap_err();
    assert_eq!(
        e,
        "Model not found: \"/no/such/dir-4711/sense-voice-int8\". Run `handy-cli download --model sense-voice-int8` first"
    );
}

#[test]
fn present_model_of_known_engine_is_loaded() {
    let s = state("whisper", None, "auto", "/m");
    match s.decide_load(None, true).unwrap() {
        LoadStep::Load { kind, model_path } => {
            assert_eq!(kind, TranscriberKind::Whisper);
            assert_eq!(model_path, "/m/ggml-small.bin");
        }
        other => panic!("unexpected {:?}", other),
    }
    let c = state("canary", Some("canary-1b-v2"), "auto", "/m");
    match c.decide_load(Some(TranscriberKind::Whisper), true).unwrap() {
        LoadStep::Load { kind, model_path } => {
            assert_eq!(kind, TranscriberKind::Canary);
            assert_eq!(model_path, "/m/canary-1b-v2");
        }
        other => panic!("unexpected {:?}", other),
    }
}

#[test]
fn unknown_engine_with_present_model_is_refused() {
    let s = state("bogus", None, "auto", "/m");
    assert_eq!(s.decide_load(None, true).unwrap_err(), "Unknown engine: bogus");
}

#[test]
fn loaded_engine_is_kept() {
    let s = state("sensevoice", None, "auto", "/no/such/dir-4711");
    assert!(matches!(
        s.load_transcriber(Some(TranscriberKind::SenseVoice)).unwrap(),
        LoadStep::AlreadyLoaded
    ));
    let m = state("moonshine-streaming", None, "auto", "/m");
    assert!(m.already_loaded(Some(TranscriberKind::Moonshine)));
    let p = state("parakeet-v2", None, "auto", "/m");
    assert!(!p.already_loaded(Some(TranscriberKind::Parakeet)));
    let t = state("moonshine-tiny-streaming-en", None, "auto", "/m");
    assert!(!t.already_loaded(Some(TranscriberKind::Moonshine)));
}

#[test]
fn transcription_without_transcriber_is_refused() {
    let s = state("whisper", None, "auto", "/m");
    assert_eq!(
        s.transcribe(None, Some("en"), false).unwrap_err(),
        "Transcriber not loaded. Call /api/health first"
    );
}

#[test]
fn transcription_requests_per_engine() {
    let s = state("whisper", None, "zh-Hans", "/m");
    let w = s.transcribe(Some(TranscriberKind::Whisper), None, true).unwrap();
    assert_eq!(w.language.as_deref(), Some("zh"));
    assert!(w.translate);
    let w2 = s.transcribe(Some(TranscriberKind::Whisper), Some("de"), false).unwrap();
    assert_eq!(w2.language.as_deref(), Some("de"));
    let auto = state("whisper", None, "auto", "/m");
    assert!(auto.transcribe(Some(TranscriberKind::Whisper), None, false).unwrap().language.is_none());
    let sv = auto.transcribe(Some(TranscriberKind::SenseVoice), Some("zh-Hant"), true).unwrap();
    assert_eq!(sv.language.as_deref(), Some("zh"));
    assert!(!sv.translate);
    let c = auto.transcribe(Some(TranscriberKind::Canary), Some("de"), true).unwrap();
    assert_eq!(c.target_language.as_deref(), Some("en"));
    assert_eq!(c.language.as_deref(), Some("de"));
    let c2 = auto.transcribe(Some(TranscriberKind::Canary), None, false).unwrap();
    assert!(c2.target_language.is_none());
    let m = auto.transcribe(Some(TranscriberKind::Moonshine), Some("fr"), true).unwrap();
    assert!(m.language.is_none());
    assert_eq!(m.reported_language.as_deref(), Some("en"));
    let g = auto.transcribe(Some(TranscriberKind::GigaAM), None, false).unwrap();
    assert_eq!(g.reported_language.as_deref(), Some("ru"));
    let co = auto.transcribe(Some(TranscriberKind::Cohere), Some("ja"), true).unwrap();
    assert!(co.translate);
    assert_eq!(co.language.as_deref(), Some("ja"));
    let p = auto.transcribe(Some(TranscriberKind::Parakeet), Some("en"), true).unwrap();
    assert!(p.language.is_none() && !p.translate);
}

#[test]
fn default_models_of_catalogue_engines_are_catalogued() {
    let sv = handy_cli::models::registry::ModelRegistry::get(&default_model("sensevoice")).unwrap();
    assert_eq!(sv.engine_type, handy_cli::models::registry::EngineType::SenseVoice);
    let w = handy_cli::models::registry::ModelRegistry::get(&default_model("whisper")).unwrap();
    assert_eq!(w.engine_type, handy_cli::models::registry::EngineType::Whisper);
}
