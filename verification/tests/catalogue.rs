use handy_cli::models::listing::{downloaded_names, listing_lines};
use handy_cli::models::manager::ModelManager;
use handy_cli::models::registry::{EngineType, ModelRegistry};

#[test]
fn catalogue_lists_models_in_order() {
    let models = ModelRegistry::available_models();
    let ids: Vec<&str> = models.iter().map(|m| m.id.as_str()).collect();
    assert_eq!(
        ids,
        vec![
            "sense-voice-int8",
            "tiny",
            "base",
            "small",
            "medium",
            "turbo",
            "large",
            "breeze-asr",
            "parakeet-tdt-0.6b-v2",
            "parakeet-tdt-0.6b-v3",
            "moonshine-base",
            "moonshine-tiny-streaming-en",
            "moonshine-small-streaming-en",
            "moonshine-medium-streaming-en",
            "gigaam-v3-e2e-ctc",
            "canary-180m-flash",
            "canary-1b-v2",
            "cohere-int8",
        ]
    );
    let first = &models[0];
    assert_eq!(first.name, "SenseVoice (int8)");
    assert_eq!(first.size_mb, 152);
    assert_eq!(first.engine_type, EngineType::SenseVoice);
    assert_eq!(first.accuracy_score, 85);
    assert_eq!(first.speed_score, 80);
    assert_eq!(first.supported_languages, vec!["zh", "en", "ja", "ko", "yue"]);
    assert!(first.is_recommended);
    assert_eq!(
        first.url.as_deref(),
        Some("https://blob.handy.computer/sense-voice-int8.tar.gz")
    );
    assert!(models.iter().all(|m| m.url.is_some()));
}

#[test]
fn get_finds_model_by_id() {
    let m = ModelRegistry::get("small").unwrap();
    assert_eq!(m.filename, "ggml-small.bin");
    assert_eq!(m.engine_type, EngineType::Whisper);
    assert_eq!(m.size_mb, 465);
    assert!(m.is_recommended);
    assert_eq!(m.supported_languages.len(), 100);
    assert_eq!(&m.supported_languages[..2], &["en".to_string(), "zh".to_string()]);
    let large = ModelRegistry::get("large").unwrap();
    assert_eq!(large.accuracy_score, 95);
    assert_eq!(large.speed_score, 30);
}

#[test]
fn readme_models_have_their_engines_and_sizes() {
    let expect = [
        ("sense-voice-int8", EngineType::SenseVoice, 152),
        ("small", EngineType::Whisper, 465),
        ("medium", EngineType::Whisper, 469),
        ("turbo", EngineType::Whisper, 1500),
        ("large", EngineType::Whisper, 1500),
        ("breeze-asr", EngineType::Whisper, 1000),
        ("parakeet-tdt-0.6b-v2", EngineType::Parakeet, 451),
        ("parakeet-tdt-0.6b-v3", EngineType::Parakeet, 456),
        ("moonshine-base", EngineType::Moonshine, 55),
        ("moonshine-tiny-streaming-en", EngineType::Moonshine, 31),
        ("moonshine-small-streaming-en", EngineType::Moonshine, 99),
        ("moonshine-medium-streaming-en", EngineType::Moonshine, 192),
        ("gigaam-v3-e2e-ctc", EngineType::GigaAM, 151),
        ("canary-180m-flash", EngineType::Canary, 146),
        ("canary-1b-v2", EngineType::Canary, 691),
        ("cohere-int8", EngineType::Cohere, 1700),
    ];
    for (id, engine, size) in expect {
        let m = ModelRegistry::get(id).unwrap();
        assert_eq!(m.engine_type, engine, "{}", id);
        assert_eq!(m.size_mb, size, "{}", id);
    }
    let v3 = ModelRegistry::get("parakeet-tdt-0.6b-v3").unwrap();
    assert_eq!(v3.supported_languages.len(), 25);
    assert_eq!(ModelRegistry::get("gigaam-v3-e2e-ctc").unwrap().supported_languages, vec!["ru"]);
    assert_eq!(
        ModelRegistry::get("canary-180m-flash").unwrap().supported_languages,
        vec!["en", "de", "es", "fr"]
    );
    assert_eq!(
        ModelRegistry::get("parakeet-tdt-0.6b-v2").unwrap().url.as_deref(),
        Some("https://blob.handy.computer/parakeet-tdt-0.6b-v2.tar.gz")
    );
}

#[test]
fn get_unknown_id_is_none() {
    assert!(ModelRegistry::get("parakeet-tdt-1b").is_none());
    assert!(ModelRegistry::get("").is_none());
    assert!(ModelRegistry::get("Small").is_none());
}

#[test]
fn every_model_found_by_its_id() {
    for m in ModelRegistry::available_models() {
        let found = ModelRegistry::get(&m.id).unwrap();
        assert_eq!(found.id, m.id);
        assert_eq!(found.filename, m.filename);
    }
}

#[test]
fn by_engine_filters_in_order() {
    let w: Vec<String> = ModelRegistry::by_engine(EngineType::Whisper)
        .into_iter()
        .map(|m| m.id)
        .collect();
    assert_eq!(w, vec!["tiny", "base", "small", "medium", "turbo", "large", "breeze-asr"]);
    let s = ModelRegistry::by_engine(EngineType::SenseVoice);
    assert_eq!(s.len(), 1);
    assert_eq!(s[0].id, "sense-voice-int8");
    assert_eq!(ModelRegistry::by_engine(EngineType::Parakeet).len(), 2);
    assert_eq!(ModelRegistry::by_engine(EngineType::Moonshine).len(), 4);
    assert_eq!(ModelRegistry::by_engine(EngineType::Cohere).len(), 1);
}

#[test]
fn engines_partition_catalogue() {
    let all = [
        EngineType::Whisper,
        EngineType::SenseVoice,
        EngineType::Parakeet,
        EngineType::Moonshine,
        EngineType::GigaAM,
        EngineType::Canary,
        EngineType::Cohere,
    ];
    let total: usize = all.iter().map(|e| ModelRegistry::by_engine(*e).len()).sum();
    assert_eq!(total, ModelRegistry::available_models().len());
}

#[test]
fn engine_names_round_trip() {
    assert_eq!(EngineType::GigaAM.name(), "gigaam");
    assert_eq!(EngineType::GigaAM.label(), "GigaAM");
    assert_eq!(EngineType::from_name("sensevoice"), Some(EngineType::SenseVoice));
    assert_eq!(EngineType::from_name("SenseVoice"), None);
    for e in [EngineType::Whisper, EngineType::Canary, EngineType::Cohere] {
        assert_eq!(EngineType::from_name(e.name()), Some(e));
    }
}

#[test]
fn model_manager_paths() {
    let m = ModelManager::new("/cache/models".to_string(), "https://blob.handy.computer".to_string());
    assert_eq!(m.cache_dir(), "/cache/models");
    assert_eq!(m.download_url(), "https://blob.handy.computer");
    assert_eq!(m.model_dir("small"), "/cache/models/small");
    let (dir, archive) = m.download_paths("sense-voice-int8");
    assert_eq!(dir, "/cache/models/sense-voice-int8");
    assert_eq!(archive, "/cache/models/sense-voice-int8.tar.gz");
}

#[test]
fn model_manager_sees_existing_paths() {
    let m = ModelManager::new("/".to_string(), String::new());
    assert_eq!(m.model_path("tmp").as_deref(), Some("/tmp"));
    assert!(m.is_downloaded("tmp"));
    assert!(m.model_path("no-such-model-here-4711").is_none());
    assert!(!m.is_downloaded("no-such-model-here-4711"));
}

#[test]
fn path_if_present_follows_the_answer() {
    let m = ModelManager::new("/cache".to_string(), String::new());
    assert_eq!(m.path_if_present("small", true).as_deref(), Some("/cache/small"));
    assert!(m.path_if_present("small", false).is_none());
}

#[test]
fn listing_groups_models_by_engine() {
    let models = ModelRegistry::listed(Some("parakeet"));
    let lines = listing_lines(&models, &vec![true, false]);
    let expected = vec![
        "=== Available Models ===",
        "",
        "--- Parakeet ---",
        "  Parakeet TDT 0.6B v2[downloaded]",
        "    ID: parakeet-tdt-0.6b-v2",
        "    Size: 451 MB",
        "    Accuracy: 85%",
        "    Speed: 85%",
        "    Languages: en",
        "    Best for English speakers",
        "",
        "  Parakeet TDT 0.6B v3",
        "    ID: parakeet-tdt-0.6b-v3",
        "    Size: 456 MB",
        "    Accuracy: 85%",
        "    Speed: 85%",
        "    Languages: 25 languages",
        "    European languages",
        "",
        "(1 of 2 models downloaded)",
    ];
    assert_eq!(lines, expected);
}

#[test]
fn listing_marks_recommended_and_translating_models() {
    let models = ModelRegistry::listed(None);
    let flags = vec![false; models.len()];
    let lines = listing_lines(&models, &flags);
    assert_eq!(lines[2], "--- SenseVoice ---");
    assert_eq!(lines[3], "  SenseVoice (int8) ★");
    assert_eq!(lines[8], "    Languages: zh, en, ja, ko, yue");
    assert!(lines.contains(&"    Languages: 100 languages".to_string()));
    let whisper = lines.iter().position(|l| l == "--- Whisper ---").unwrap();
    assert_eq!(lines[whisper - 1], "");
    assert!(lines.contains(&"  Whisper Small ★".to_string()));
    assert!(lines.contains(&"    + Translation to English".to_string()));
    assert_eq!(lines.iter().filter(|l| l.starts_with("--- ")).count(), 7);
    assert_eq!(lines.last().unwrap(), "(0 of 18 models downloaded)");
}

#[test]
fn empty_listing_counts_nothing() {
    let lines = listing_lines(&Vec::new(), &Vec::new());
    assert_eq!(lines, vec!["=== Available Models ===", "", "(0 of 0 models downloaded)"]);
}

#[test]
fn downloaded_models_are_the_directories() {
    let entries = vec![
        ("small".to_string(), true),
        ("small.tar.gz".to_string(), false),
        ("sense-voice-int8".to_string(), true),
    ];
    assert_eq!(downloaded_names(&entries), vec!["small", "sense-voice-int8"]);
    assert!(downloaded_names(&Vec::new()).is_empty());
}
