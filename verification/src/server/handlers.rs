//! The decisions of the HTTP handlers: which engine and model a configuration asks for, when a
//! transcriber must be (re)loaded, what each engine is asked, and how a one-shot request body
//! becomes audio or an error.

use crate::codec::{decode_standard, fault_text, fault_text_of, standard_decode, Base64Fault};
use crate::pcm::{pcm_samples, pcm_samples_of};
use crate::text::{
    concat, debug_path, has_prefix, join_path, joined_path, path_debug, path_exists, same_text,
    starts_with,
};
use crate::transcriber::{
    normalize_hint, opt_view, spec_normalize_hint, EngineRequest, EngineRequestView,
};
use vstd::prelude::*;

verus! {

/// The kinds of transcriber the server can hold.
#[derive(PartialEq, Eq, Structural, Clone, Copy, Debug)]
pub enum TranscriberKind {
    Whisper,
    SenseVoice,
    Parakeet,
    Moonshine,
    GigaAM,
    Canary,
    Cohere,
}

impl TranscriberKind {
    /// The name used in "Failed to load <name>: ..." messages.
    pub fn label(&self) -> (r: &'static str)
        ensures
            r@ == spec_kind_label(*self),
    {
        match self {
            TranscriberKind::Whisper => "Whisper",
            TranscriberKind::SenseVoice => "SenseVoice",
            TranscriberKind::Parakeet => "Parakeet",
            TranscriberKind::Moonshine => "Moonshine",
            TranscriberKind::GigaAM => "GigaAM",
            TranscriberKind::Canary => "Canary",
            TranscriberKind::Cohere => "Cohere",
        }
    }
}

/// The display name of a kind of transcriber.
pub open spec fn spec_kind_label(k: TranscriberKind) -> Seq<char> {
    match k {
        TranscriberKind::Whisper => "Whisper"@,
        TranscriberKind::SenseVoice => "SenseVoice"@,
        TranscriberKind::Parakeet => "Parakeet"@,
        TranscriberKind::Moonshine => "Moonshine"@,
        TranscriberKind::GigaAM => "GigaAM"@,
        TranscriberKind::Canary => "Canary"@,
        TranscriberKind::Cohere => "Cohere"@,
    }
}

/// The model an engine name uses when none is configured.
pub open spec fn spec_default_model(engine: Seq<char>) -> Seq<char> {
    if engine == "sensevoice"@ {
        "sense-voice-int8"@
    } else if engine == "whisper"@ {
        "small"@
    } else if engine == "parakeet"@ {
        "parakeet-tdt-0.6b-v2"@
    } else if engine == "moonshine"@ || engine == "moonshine-base"@ {
        "moonshine-base"@
    } else if engine == "moonshine-streaming"@ || engine == "moonshinestreaming"@ || engine
        == "moonshine-tiny-streaming-en"@ {
        "moonshine-tiny-streaming-en"@
    } else if engine == "moonshine-small-streaming-en"@ {
        "moonshine-small-streaming-en"@
    } else if engine == "moonshine-medium-streaming-en"@ {
        "moonshine-medium-streaming-en"@
    } else if engine == "gigaam"@ || engine == "gigaam-v3"@ {
        "gigaam-v3-e2e-ctc"@
    } else if engine == "canary"@ || engine == "canary-180m"@ {
        "canary-180m-flash"@
    } else if engine == "canary-1b"@ {
        "canary-1b-v2"@
    } else if engine == "cohere"@ {
        "cohere-int8"@
    } else {
        "small"@
    }
}

/// The kind of transcriber an engine name loads; `None` for an unknown engine.
pub open spec fn spec_engine_kind(engine: Seq<char>) -> Option<TranscriberKind> {
    if engine == "whisper"@ {
        Some(TranscriberKind::Whisper)
    } else if engine == "sensevoice"@ {
        Some(TranscriberKind::SenseVoice)
    } else if engine == "parakeet"@ || engine == "parakeet-v2"@ || engine == "parakeet-v3"@ {
        Some(TranscriberKind::Parakeet)
    } else if engine == "moonshine"@ || engine == "moonshine-base"@ || engine
        == "moonshine-streaming"@ || engine == "moonshinestreaming"@ || engine
        == "moonshine-tiny-streaming-en"@ || engine == "moonshine-small-streaming-en"@ || engine
        == "moonshine-medium-streaming-en"@ {
        Some(TranscriberKind::Moonshine)
    } else if engine == "gigaam"@ || engine == "gigaam-v3"@ {
        Some(TranscriberKind::GigaAM)
    } else if engine == "canary"@ || engine == "canary-180m"@ || engine == "canary-1b"@ {
        Some(TranscriberKind::Canary)
    } else if engine == "cohere"@ {
        Some(TranscriberKind::Cohere)
    } else {
        None
    }
}

/// The engine name a loaded transcriber answers to, given the configured engine name (a loaded
/// Moonshine answers "moonshine-streaming" to the streaming names).
pub open spec fn spec_loaded_name(k: TranscriberKind, engine: Seq<char>) -> Seq<char> {
    match k {
        TranscriberKind::Whisper => "whisper"@,
        TranscriberKind::SenseVoice => "sensevoice"@,
        TranscriberKind::Parakeet => "parakeet"@,
        TranscriberKind::Moonshine => if starts_with(engine, "moonshine-streaming"@) || starts_with(
            engine,
            "moonshinestreaming"@,
        ) {
            "moonshine-streaming"@
        } else {
            "moonshine"@
        },
        TranscriberKind::GigaAM => "gigaam"@,
        TranscriberKind::Canary => "canary"@,
        TranscriberKind::Cohere => "cohere"@,
    }
}

/// The file or directory name of a model: whisper models are single files "ggml-<id>.bin".
pub open spec fn spec_model_file(engine: Seq<char>, model_id: Seq<char>) -> Seq<char> {
    if engine == "whisper"@ {
        "ggml-"@ + model_id + ".bin"@
    } else {
        model_id
    }
}

/// The model an engine name uses when none is configured.
pub fn default_model(engine: &str) -> (r: String)
    ensures
        r@ == spec_default_model(engine@),
{
    let id = if same_text(engine, "sensevoice") {
        "sense-voice-int8"
    } else if same_text(engine, "whisper") {
        "small"
    } else if same_text(engine, "parakeet") {
        "parakeet-tdt-0.6b-v2"
    } else if same_text(engine, "moonshine") || same_text(engine, "moonshine-base") {
        "moonshine-base"
    } else if same_text(engine, "moonshine-streaming") || same_text(engine, "moonshinestreaming")
        || same_text(engine, "moonshine-tiny-streaming-en") {
        "moonshine-tiny-streaming-en"
    } else if same_text(engine, "moonshine-small-streaming-en") {
        "moonshine-small-streaming-en"
    } else if same_text(engine, "moonshine-medium-streaming-en") {
        "moonshine-medium-streaming-en"
    } else if same_text(engine, "gigaam") || same_text(engine, "gigaam-v3") {
        "gigaam-v3-e2e-ctc"
    } else if same_text(engine, "canary") || same_text(engine, "canary-180m") {
        "canary-180m-flash"
    } else if same_text(engine, "canary-1b") {
        "canary-1b-v2"
    } else if same_text(engine, "cohere") {
        "cohere-int8"
    } else {
        "small"
    };
    String::from_str(id)
}

/// The kind of transcriber an engine name loads; `None` for an unknown engine.
pub fn engine_kind(engine: &str) -> (r: Option<TranscriberKind>)
    ensures
        r == spec_engine_kind(engine@),
{
    if same_text(engine, "whisper") {
        Some(TranscriberKind::Whisper)
    } else if same_text(engine, "sensevoice") {
        Some(TranscriberKind::SenseVoice)
    } else if same_text(engine, "parakeet") || same_text(engine, "parakeet-v2") || same_text(
        engine,
        "parakeet-v3",
    ) {
        Some(TranscriberKind::Parakeet)
    } else if same_text(engine, "moonshine") || same_text(engine, "moonshine-base") || same_text(
        engine,
        "moonshine-streaming",
    ) || same_text(engine, "moonshinestreaming") || same_text(
        engine,
        "moonshine-tiny-streaming-en",
    ) || same_text(engine, "moonshine-small-streaming-en") || same_text(
        engine,
        "moonshine-medium-streaming-en",
    ) {
        Some(TranscriberKind::Moonshine)
    } else if same_text(engine, "gigaam") || same_text(engine, "gigaam-v3") {
        Some(TranscriberKind::GigaAM)
    } else if same_text(engine, "canary") || same_text(engine, "canary-180m") || same_text(
        engine,
        "canary-1b",
    ) {
        Some(TranscriberKind::Canary)
    } else if same_text(engine, "cohere") {
        Some(TranscriberKind::Cohere)
    } else {
        None
    }
}

/// The engine name a loaded transcriber answers to.
pub fn loaded_name(k: TranscriberKind, engine: &str) -> (r: &'static str)
    ensures
        r@ == spec_loaded_name(k, engine@),
{
    match k {
        TranscriberKind::Whisper => "whisper",
        TranscriberKind::SenseVoice => "sensevoice",
        TranscriberKind::Parakeet => "parakeet",
        TranscriberKind::Moonshine => {
            if has_prefix(engine, "moonshine-streaming") || has_prefix(engine, "moonshinestreaming") {
                "moonshine-streaming"
            } else {
                "moonshine"
            }
        },
        TranscriberKind::GigaAM => "gigaam",
        TranscriberKind::Canary => "canary",
        TranscriberKind::Cohere => "cohere",
    }
}

/// The file or directory name of a model.
pub fn model_file(engine: &str, model_id: &str) -> (r: String)
    ensures
        r@ == spec_model_file(engine@, model_id@),
{
    if same_text(engine, "whisper") {
        let s = concat("ggml-", model_id);
        concat(s.as_str(), ".bin")
    } else {
        String::from_str(model_id)
    }
}

/// The server's configuration.
pub struct RouterState {
    /// Engine name, as given on the command line.
    pub engine: String,
    /// Model id; `None` means the engine's default.
    pub model: Option<String>,
    /// Language code; "auto" lets the engine decide.
    pub language: String,
    /// Directory that holds the models.
    pub model_dir: String,
}

/// What has to be done to have the configured transcriber loaded.
#[derive(Debug)]
pub enum LoadStep {
    /// The transcriber held already answers to the configured engine.
    AlreadyLoaded,
    /// Load a transcriber of this kind from this path.
    Load { kind: TranscriberKind, model_path: String },
}

/// A load step as the contracts see it.
pub enum LoadStepView {
    AlreadyLoaded,
    Load { kind: TranscriberKind, model_path: Seq<char> },
}

impl View for LoadStep {
    type V = LoadStepView;

    open spec fn view(&self) -> LoadStepView {
        match self {
            LoadStep::AlreadyLoaded => LoadStepView::AlreadyLoaded,
            LoadStep::Load { kind, model_path } => LoadStepView::Load {
                kind: *kind,
                model_path: model_path@,
            },
        }
    }
}

/// The view of a load outcome.
pub open spec fn load_outcome_view(r: Result<LoadStep, String>) -> Result<LoadStepView, Seq<char>> {
    match r {
        Ok(s) => Ok(s@),
        Err(e) => Err(e@),
    }
}

/// The message given when a model is not on disk.
pub open spec fn model_missing_message(path: Seq<char>, model_id: Seq<char>) -> Seq<char> {
    "Model not found: "@ + path_debug(path) + ". Run `handy-cli download --model "@ + model_id
        + "` first"@
}

/// Whether the transcriber held (if any) already answers to the configured engine.
pub open spec fn spec_already_loaded(engine: Seq<char>, loaded: Option<TranscriberKind>) -> bool {
    match loaded {
        Some(k) => spec_loaded_name(k, engine) == engine,
        None => false,
    }
}

/// The model id a configuration uses.
pub open spec fn spec_model_id(model: Option<String>, engine: Seq<char>) -> Seq<char> {
    match model {
        Some(m) => m@,
        None => spec_default_model(engine),
    }
}

/// The path of the model a configuration uses.
pub open spec fn spec_model_path(s: RouterState) -> Seq<char> {
    joined_path(s.model_dir@, spec_model_file(s.engine@, spec_model_id(s.model, s.engine@)))
}

/// What loading the configured transcriber comes to, given the transcriber held and whether the
/// model is on disk.
pub open spec fn spec_load_decision(
    s: RouterState,
    loaded: Option<TranscriberKind>,
    model_present: bool,
) -> Result<LoadStepView, Seq<char>> {
    if spec_already_loaded(s.engine@, loaded) {
        Ok(LoadStepView::AlreadyLoaded)
    } else if !model_present {
        Err(model_missing_message(spec_model_path(s), spec_model_id(s.model, s.engine@)))
    } else {
        match spec_engine_kind(s.engine@) {
            Some(k) => Ok(LoadStepView::Load { kind: k, model_path: spec_model_path(s) }),
            None => Err("Unknown engine: "@ + s.engine@),
        }
    }
}

/// The language the engine is asked for: the request's, else the configured one unless it is
/// "auto".
pub open spec fn spec_effective_language(request: Option<Seq<char>>, configured: Seq<char>) -> Option<
    Seq<char>,
> {
    match request {
        Some(l) => Some(l),
        None => if configured != "auto"@ {
            Some(configured)
        } else {
            None
        },
    }
}

/// What each kind of engine is asked, given the language and the translation flag.
pub open spec fn spec_engine_request(
    k: TranscriberKind,
    language: Option<Seq<char>>,
    translate: bool,
) -> EngineRequestView {
    match k {
        TranscriberKind::Whisper => EngineRequestView {
            language: spec_normalize_hint(language),
            translate,
            target_language: None,
            reported_language: None,
        },
        TranscriberKind::SenseVoice => EngineRequestView {
            language: spec_normalize_hint(language),
            translate: false,
            target_language: None,
            reported_language: None,
        },
        TranscriberKind::Parakeet => EngineRequestView {
            language: None,
            translate: false,
            target_language: None,
            reported_language: None,
        },
        TranscriberKind::Moonshine => EngineRequestView {
            language: None,
            translate: false,
            target_language: None,
            reported_language: Some("en"@),
        },
        TranscriberKind::GigaAM => EngineRequestView {
            language: None,
            translate: false,
            target_language: None,
            reported_language: Some("ru"@),
        },
        TranscriberKind::Canary => EngineRequestView {
            language: spec_normalize_hint(language),
            translate: false,
            target_language: if translate {
                Some("en"@)
            } else {
                None
            },
            reported_language: None,
        },
        TranscriberKind::Cohere => EngineRequestView {
            language: spec_normalize_hint(language),
            translate,
            target_language: None,
            reported_language: None,
        },
    }
}

/// The message given when a transcription is asked for before any transcriber is loaded.
pub open spec fn not_loaded_message() -> Seq<char> {
    "Transcriber not loaded. Call /api/health first"@
}

/// What a transcription comes to, given the transcriber held.
pub open spec fn spec_transcription_plan(
    s: RouterState,
    loaded: Option<TranscriberKind>,
    language: Option<Seq<char>>,
    translate: bool,
) -> Result<EngineRequestView, Seq<char>> {
    match loaded {
        None => Err(not_loaded_message()),
        Some(k) => Ok(spec_engine_request(k, spec_effective_language(language, s.language@), translate)),
    }
}

impl RouterState {
    pub fn new(engine: String, model: Option<String>, language: String, model_dir: String) -> (r: Self)
        ensures
            r.engine == engine,
            r.model == model,
            r.language == language,
            r.model_dir == model_dir,
    {
        RouterState { engine, model, language, model_dir }
    }

    /// The model id this configuration uses.
    pub fn model_id(&self) -> (r: String)
        ensures
            r@ == spec_model_id(self.model, self.engine@),
    {
        match &self.model {
            Some(m) => m.clone(),
            None => default_model(self.engine.as_str()),
        }
    }

    /// The path of the model this configuration uses.
    pub fn model_path(&self) -> (r: String)
        ensures
            r@ == spec_model_path(*self),
    {
        let id = self.model_id();
        let file = model_file(self.engine.as_str(), id.as_str());
        join_path(self.model_dir.as_str(), file.as_str())
    }

    /// Whether the transcriber held (if any) already answers to the configured engine.
    pub fn already_loaded(&self, loaded: Option<TranscriberKind>) -> (r: bool)
        ensures
            r == spec_already_loaded(self.engine@, loaded),
    {
        match loaded {
            Some(k) => same_text(loaded_name(k, self.engine.as_str()), self.engine.as_str()),
            None => false,
        }
    }

    /// What loading the configured transcriber comes to, given the transcriber held and whether
    /// its model is on disk.
    pub fn decide_load(&self, loaded: Option<TranscriberKind>, model_present: bool) -> (r: Result<
        LoadStep,
        String,
    >)
        ensures
            load_outcome_view(r) == spec_load_decision(*self, loaded, model_present),
    {
        if self.already_loaded(loaded) {
            return Ok(LoadStep::AlreadyLoaded);
        }
        let id = self.model_id();
        let path = self.model_path();
        if !model_present {
            let shown = debug_path(path.as_str());
            let a = concat("Model not found: ", shown.as_str());
            let b = concat(a.as_str(), ". Run `handy-cli download --model ");
            let c = concat(b.as_str(), id.as_str());
            return Err(concat(c.as_str(), "` first"));
        }
        match engine_kind(self.engine.as_str()) {
            Some(k) => Ok(LoadStep::Load { kind: k, model_path: path }),
            None => Err(concat("Unknown engine: ", self.engine.as_str())),
        }
    }

    /// Decides how to have the configured transcriber loaded, looking on disk for its model when
    /// it is not loaded already. Which answer the disk gives is not known here: the outcome is
    /// the decision for one of the two.
    pub fn load_transcriber(&self, loaded: Option<TranscriberKind>) -> (r: Result<LoadStep, String>)
        ensures
            load_outcome_view(r) == spec_load_decision(*self, loaded, true) || load_outcome_view(r)
                == spec_load_decision(*self, loaded, false),
    {
        if self.already_loaded(loaded) {
            return Ok(LoadStep::AlreadyLoaded);
        }
        let path = self.model_path();
        let present = path_exists(path.as_str());
        self.decide_load(loaded, present)
    }

    /// What the engine held is asked for a transcription, or the error when none is held.
    pub fn transcribe(&self, loaded: Option<TranscriberKind>, language: Option<&str>, translate: bool) -> (r:
        Result<EngineRequest, String>)
        ensures
            match r {
                Ok(q) => spec_transcription_plan(
                    *self,
                    loaded,
                    match language {
                        Some(l) => Some(l@),
                        None => None,
                    },
                    translate,
                ) == Ok::<EngineRequestView, Seq<char>>(q@),
                Err(e) => spec_transcription_plan(
                    *self,
                    loaded,
                    match language {
                        Some(l) => Some(l@),
                        None => None,
                    },
                    translate,
                ) == Err::<EngineRequestView, Seq<char>>(e@),
            },
    {
        let k = match loaded {
            Some(k) => k,
            None => {
                return Err(String::from_str("Transcriber not loaded. Call /api/health first"));
            },
        };
        let lang: Option<&str> = match language {
            Some(l) => Some(l),
            None => if !same_text(self.language.as_str(), "auto") {
                Some(self.language.as_str())
            } else {
                None
            },
        };
        let q = match k {
            TranscriberKind::Whisper => EngineRequest {
                language: normalize_hint(lang),
                translate,
                target_language: None,
                reported_language: None,
            },
            TranscriberKind::SenseVoice => EngineRequest {
                language: normalize_hint(lang),
                translate: false,
                target_language: None,
                reported_language: None,
            },
            TranscriberKind::Parakeet => EngineRequest {
                language: None,
                translate: false,
                target_language: None,
                reported_language: None,
            },
            TranscriberKind::Moonshine => EngineRequest {
                language: None,
                translate: false,
                target_language: None,
                reported_language: Some(String::from_str("en")),
            },
            TranscriberKind::GigaAM => EngineRequest {
                language: None,
                translate: false,
                target_language: None,
                reported_language: Some(String::from_str("ru")),
            },
            TranscriberKind::Canary => EngineRequest {
                language: normalize_hint(lang),
                translate: false,
                target_language: if translate {
                    Some(String::from_str("en"))
                } else {
                    None
                },
                reported_language: None,
            },
            TranscriberKind::Cohere => EngineRequest {
                language: normalize_hint(lang),
                translate,
                target_language: None,
                reported_language: None,
            },
        };
        Ok(q)
    }
}


/// An error answered to an HTTP request: a status code and a message.
#[derive(Debug)]
pub struct AppError {
    message: String,
    status: u16,
}

/// The status of a refused request.
pub open spec fn bad_request_status() -> u16 {
    400
}

/// The status of a request the server failed.
pub open spec fn internal_status() -> u16 {
    500
}

impl AppError {
    pub closed spec fn spec_message(&self) -> Seq<char> {
        self.message@
    }

    pub closed spec fn spec_status(&self) -> u16 {
        self.status
    }

    pub fn new(status: u16, message: String) -> (r: Self)
        ensures
            r.spec_status() == status,
            r.spec_message() == message@,
    {
        AppError { message, status }
    }

    /// A refused request (400).
    pub fn bad_request(message: String) -> (r: Self)
        ensures
            r.spec_status() == bad_request_status(),
            r.spec_message() == message@,
    {
        Self::new(400, message)
    }

    /// A request the server failed (500).
    pub fn internal(message: String) -> (r: Self)
        ensures
            r.spec_status() == internal_status(),
            r.spec_message() == message@,
    {
        Self::new(500, message)
    }

    /// A request whose base64 could not be decoded (400): "Base64 decode error: " and the
    /// failure's text.
    pub fn from_fault(fault: Base64Fault) -> (r: Self)
        ensures
            r.spec_status() == bad_request_status(),
            r.spec_message() == "Base64 decode error: "@ + fault_text_of(fault),
    {
        Self::bad_request(concat("Base64 decode error: ", fault_text(fault).as_str()))
    }

    /// Loading the transcriber failed (500), "Failed to load transcriber: <detail>".
    pub fn load_failure(detail: &str) -> (r: Self)
        ensures
            r.spec_status() == internal_status(),
            r.spec_message() == "Failed to load transcriber: "@ + detail@,
    {
        Self::internal(concat("Failed to load transcriber: ", detail))
    }

    /// The transcription failed (500), "Transcription failed: <detail>".
    pub fn transcription_failure(detail: &str) -> (r: Self)
        ensures
            r.spec_status() == internal_status(),
            r.spec_message() == "Transcription failed: "@ + detail@,
    {
        Self::internal(concat("Transcription failed: ", detail))
    }

    pub fn message(&self) -> (r: &String)
        ensures
            r@ == self.spec_message(),
    {
        &self.message
    }

    pub fn status(&self) -> (r: u16)
        ensures
            r == self.spec_status(),
    {
        self.status
    }
}

/// The answer to a health check.
#[derive(Debug)]
pub struct HealthResponse {
    pub status: String,
    pub engine: String,
    pub model: Option<String>,
    pub loaded: bool,
}

impl HealthResponse {
    /// The health of a server whose transcriber could (`loaded`) or could not be loaded: status
    /// "ok" or "model_not_loaded", with the configured engine and model.
    pub fn for_state(state: &RouterState, loaded: bool) -> (r: Self)
        ensures
            r.status@ == (if loaded {
                "ok"@
            } else {
                "model_not_loaded"@
            }),
            r.engine@ == state.engine@,
            r.model == state.model,
            r.loaded == loaded,
    {
        HealthResponse {
            status: if loaded {
                String::from_str("ok")
            } else {
                String::from_str("model_not_loaded")
            },
            engine: state.engine.clone(),
            model: match &state.model {
                Some(m) => Some(m.clone()),
                None => None,
            },
            loaded,
        }
    }
}

/// A one-shot transcription request: base64 of 16-bit little-endian mono PCM.
#[derive(Debug)]
pub struct TranscribeRequest {
    pub audio: String,
    pub language: Option<String>,
    pub sample_rate: Option<u32>,
    pub translate: Option<bool>,
}

/// The query of a streaming transcription request.
#[derive(Debug)]
pub struct StreamParams {
    pub sample_rate: Option<u32>,
    pub language: Option<String>,
    pub translate: Option<bool>,
}

impl Default for StreamParams {
    fn default() -> (r: Self)
        ensures
            r.sample_rate is None,
            r.language is None,
            r.translate is None,
    {
        StreamParams { sample_rate: None, language: None, translate: None }
    }
}

/// The sample rate assumed when a request gives none.
pub open spec fn default_sample_rate() -> u32 {
    16000
}

/// The audio of a one-shot request.
#[derive(Debug)]
pub struct RequestAudio {
    pub samples: Vec<i16>,
    pub sample_rate: u32,
}

/// The bytes of a request's base64 text.
pub open spec fn audio_text_bytes(req: &TranscribeRequest) -> Seq<u8> {
    vstd::utf8::encode_utf8(req.audio@)
}

/// Decodes the audio of a one-shot request. Text that is not base64 is refused with
/// "Invalid base64 audio: " and the decoder's failure text, audio with no complete sample with
/// "No audio samples found", both as bad requests; otherwise the samples and the declared sample
/// rate (16000 if absent).
pub fn decode_request_audio(req: &TranscribeRequest) -> (r: Result<RequestAudio, AppError>)
    ensures
        standard_decode(audio_text_bytes(req)) matches Err(f) ==> (r matches Err(e) && e.spec_status()
            == bad_request_status() && e.spec_message() == "Invalid base64 audio: "@ + fault_text_of(f)),
        standard_decode(audio_text_bytes(req)) matches Ok(bytes) ==> {
            if pcm_samples_of(bytes).len() == 0 {
                r matches Err(e) && e.spec_status() == bad_request_status() && e.spec_message()
                    == "No audio samples found"@
            } else {
                r matches Ok(a) && a.samples@ == pcm_samples_of(bytes) && a.sample_rate == match req.sample_rate {
                    Some(s) => s,
                    None => default_sample_rate(),
                }
            }
        },
{
    let bytes = match decode_standard(req.audio.as_str().as_bytes()) {
        Ok(b) => b,
        Err(f) => {
            return Err(AppError::bad_request(concat("Invalid base64 audio: ", fault_text(f).as_str())));
        },
    };
    let samples = pcm_samples(bytes.as_slice());
    if samples.len() == 0 {
        return Err(AppError::bad_request(String::from_str("No audio samples found")));
    }
    let sample_rate = match req.sample_rate {
        Some(s) => s,
        None => 16000,
    };
    Ok(RequestAudio { samples, sample_rate })
}


/// A transcriber that already answers to the configured engine is kept, whatever is on disk.
pub proof fn law_loaded_engine_is_kept(s: RouterState, k: TranscriberKind, model_present: bool)
    requires
        spec_loaded_name(k, s.engine@) == s.engine@,
    ensures
        spec_load_decision(s, Some(k), model_present) == Ok::<LoadStepView, Seq<char>>(
            LoadStepView::AlreadyLoaded,
        ),
{
}

/// With no transcriber answering to the configured engine, a model missing from disk is
/// reported, naming the model id, before anything else is decided; a model on disk of a known
/// engine is loaded from its path.
pub proof fn law_load_needs_model_on_disk(s: RouterState, loaded: Option<TranscriberKind>)
    requires
        !spec_already_loaded(s.engine@, loaded),
    ensures
        spec_load_decision(s, loaded, false) == Err::<LoadStepView, Seq<char>>(
            model_missing_message(spec_model_path(s), spec_model_id(s.model, s.engine@)),
        ),
        spec_engine_kind(s.engine@) matches Some(k) ==> spec_load_decision(s, loaded, true)
            == Ok::<LoadStepView, Seq<char>>(LoadStepView::Load { kind: k, model_path: spec_model_path(s) }),
        spec_engine_kind(s.engine@) is None ==> spec_load_decision(s, loaded, true) == Err::<
            LoadStepView,
            Seq<char>,
        >("Unknown engine: "@ + s.engine@),
{
}

/// A language given with a request wins; without one, the configured language is used unless
/// it is "auto", in which case the engine decides.
pub proof fn law_request_language_wins(request: Option<Seq<char>>, configured: Seq<char>)
    ensures
        request matches Some(l) ==> spec_effective_language(request, configured) == Some(l),
        request is None && configured == "auto"@ ==> spec_effective_language(request, configured) is None,
        request is None && configured != "auto"@ ==> spec_effective_language(request, configured)
            == Some(configured),
{
}

/// Every engine that translates is asked to translate exactly when the request asks for it
/// (Canary by asking for English as its target), and the others never are.
pub proof fn law_translation_follows_request(
    k: TranscriberKind,
    language: Option<Seq<char>>,
    translate: bool,
)
    ensures
        (k == TranscriberKind::Whisper || k == TranscriberKind::Cohere) ==> spec_engine_request(
            k,
            language,
            translate,
        ).translate == translate,
        k == TranscriberKind::Canary ==> (spec_engine_request(k, language, translate).target_language
            is Some <==> translate),
        !(k == TranscriberKind::Whisper || k == TranscriberKind::Cohere) ==> !spec_engine_request(
            k,
            language,
            translate,
        ).translate,
{
}

/// The default models of the two engines that share the catalogue are catalogue models of
/// those engines.
pub proof fn law_default_models_are_catalogued()
    ensures
        crate::models::registry::find_model(
            crate::models::registry::catalogue(),
            spec_default_model("sensevoice"@),
        ) matches Some(m) && m.engine_type == crate::models::registry::EngineType::SenseVoice,
        crate::models::registry::find_model(
            crate::models::registry::catalogue(),
            spec_default_model("whisper"@),
        ) matches Some(m) && m.engine_type == crate::models::registry::EngineType::Whisper,
{
    crate::models::registry::law_every_model_found_by_id();
    reveal_strlit("sensevoice");
    reveal_strlit("whisper");
    let c = crate::models::registry::catalogue();
    assert(c[0].id == "sense-voice-int8"@);
    assert(c[3].id == "small"@);
    assert("whisper"@.len() != "sensevoice"@.len());
    assert(spec_default_model("whisper"@) == "small"@);
    assert(crate::models::registry::find_model(c, c[3].id) == Some(c[3]));
}

/// The engine names the server knows are all different.
proof fn lemma_engine_names_distinct()
    ensures
        "whisper"@ != "sensevoice"@,
        "whisper"@ != "parakeet"@,
        "whisper"@ != "parakeet-v2"@,
        "whisper"@ != "parakeet-v3"@,
        "whisper"@ != "moonshine"@,
        "whisper"@ != "moonshine-base"@,
        "whisper"@ != "moonshine-streaming"@,
        "whisper"@ != "moonshinestreaming"@,
        "whisper"@ != "moonshine-tiny-streaming-en"@,
        "whisper"@ != "moonshine-small-streaming-en"@,
        "whisper"@ != "moonshine-medium-streaming-en"@,
        "whisper"@ != "gigaam"@,
        "whisper"@ != "gigaam-v3"@,
        "whisper"@ != "canary"@,
        "whisper"@ != "canary-180m"@,
        "whisper"@ != "canary-1b"@,
        "whisper"@ != "cohere"@,
        "sensevoice"@ != "parakeet"@,
        "sensevoice"@ != "parakeet-v2"@,
        "sensevoice"@ != "parakeet-v3"@,
        "sensevoice"@ != "moonshine"@,
        "sensevoice"@ != "moonshine-base"@,
        "sensevoice"@ != "moonshine-streaming"@,
        "sensevoice"@ != "moonshinestreaming"@,
        "sensevoice"@ != "moonshine-tiny-streaming-en"@,
        "sensevoice"@ != "moonshine-small-streaming-en"@,
        "sensevoice"@ != "moonshine-medium-streaming-en"@,
        "sensevoice"@ != "gigaam"@,
        "sensevoice"@ != "gigaam-v3"@,
        "sensevoice"@ != "canary"@,
        "sensevoice"@ != "canary-180m"@,
        "sensevoice"@ != "canary-1b"@,
        "sensevoice"@ != "cohere"@,
        "parakeet"@ != "parakeet-v2"@,
        "parakeet"@ != "parakeet-v3"@,
        "parakeet"@ != "moonshine"@,
        "parakeet"@ != "moonshine-base"@,
        "parakeet"@ != "moonshine-streaming"@,
        "parakeet"@ != "moonshinestreaming"@,
        "parakeet"@ != "moonshine-tiny-streaming-en"@,
        "parakeet"@ != "moonshine-small-streaming-en"@,
        "parakeet"@ != "moonshine-medium-streaming-en"@,
        "parakeet"@ != "gigaam"@,
        "parakeet"@ != "gigaam-v3"@,
        "parakeet"@ != "canary"@,
        "parakeet"@ != "canary-180m"@,
        "parakeet"@ != "canary-1b"@,
        "parakeet"@ != "cohere"@,
        "parakeet-v2"@ != "parakeet-v3"@,
        "parakeet-v2"@ != "moonshine"@,
        "parakeet-v2"@ != "moonshine-base"@,
        "parakeet-v2"@ != "moonshine-streaming"@,
        "parakeet-v2"@ != "moonshinestreaming"@,
        "parakeet-v2"@ != "moonshine-tiny-streaming-en"@,
        "parakeet-v2"@ != "moonshine-small-streaming-en"@,
        "parakeet-v2"@ != "moonshine-medium-streaming-en"@,
        "parakeet-v2"@ != "gigaam"@,
        "parakeet-v2"@ != "gigaam-v3"@,
        "parakeet-v2"@ != "canary"@,
        "parakeet-v2"@ != "canary-180m"@,
        "parakeet-v2"@ != "canary-1b"@,
        "parakeet-v2"@ != "cohere"@,
        "parakeet-v3"@ != "moonshine"@,
        "parakeet-v3"@ != "moonshine-base"@,
        "parakeet-v3"@ != "moonshine-streaming"@,
        "parakeet-v3"@ != "moonshinestreaming"@,
        "parakeet-v3"@ != "moonshine-tiny-streaming-en"@,
        "parakeet-v3"@ != "moonshine-small-streaming-en"@,
        "parakeet-v3"@ != "moonshine-medium-streaming-en"@,
        "parakeet-v3"@ != "gigaam"@,
        "parakeet-v3"@ != "gigaam-v3"@,
        "parakeet-v3"@ != "canary"@,
        "parakeet-v3"@ != "canary-180m"@,
        "parakeet-v3"@ != "canary-1b"@,
        "parakeet-v3"@ != "cohere"@,
        "moonshine"@ != "moonshine-base"@,
        "moonshine"@ != "moonshine-streaming"@,
        "moonshine"@ != "moonshinestreaming"@,
        "moonshine"@ != "moonshine-tiny-streaming-en"@,
        "moonshine"@ != "moonshine-small-streaming-en"@,
        "moonshine"@ != "moonshine-medium-streaming-en"@,
        "moonshine"@ != "gigaam"@,
        "moonshine"@ != "gigaam-v3"@,
        "moonshine"@ != "canary"@,
        "moonshine"@ != "canary-180m"@,
        "moonshine"@ != "canary-1b"@,
        "moonshine"@ != "cohere"@,
        "moonshine-base"@ != "moonshine-streaming"@,
        "moonshine-base"@ != "moonshinestreaming"@,
        "moonshine-base"@ != "moonshine-tiny-streaming-en"@,
        "moonshine-base"@ != "moonshine-small-streaming-en"@,
        "moonshine-base"@ != "moonshine-medium-streaming-en"@,
        "moonshine-base"@ != "gigaam"@,
        "moonshine-base"@ != "gigaam-v3"@,
        "moonshine-base"@ != "canary"@,
        "moonshine-base"@ != "canary-180m"@,
        "moonshine-base"@ != "canary-1b"@,
        "moonshine-base"@ != "cohere"@,
        "moonshine-streaming"@ != "moonshinestreaming"@,
        "moonshine-streaming"@ != "moonshine-tiny-streaming-en"@,
        "moonshine-streaming"@ != "moonshine-small-streaming-en"@,
        "moonshine-streaming"@ != "moonshine-medium-streaming-en"@,
        "moonshine-streaming"@ != "gigaam"@,
        "moonshine-streaming"@ != "gigaam-v3"@,
        "moonshine-streaming"@ != "canary"@,
        "moonshine-streaming"@ != "canary-180m"@,
        "moonshine-streaming"@ != "canary-1b"@,
        "moonshine-streaming"@ != "cohere"@,
        "moonshinestreaming"@ != "moonshine-tiny-streaming-en"@,
        "moonshinestreaming"@ != "moonshine-small-streaming-en"@,
        "moonshinestreaming"@ != "moonshine-medium-streaming-en"@,
        "moonshinestreaming"@ != "gigaam"@,
        "moonshinestreaming"@ != "gigaam-v3"@,
        "moonshinestreaming"@ != "canary"@,
        "moonshinestreaming"@ != "canary-180m"@,
        "moonshinestreaming"@ != "canary-1b"@,
        "moonshinestreaming"@ != "cohere"@,
        "moonshine-tiny-streaming-en"@ != "moonshine-small-streaming-en"@,
        "moonshine-tiny-streaming-en"@ != "moonshine-medium-streaming-en"@,
        "moonshine-tiny-streaming-en"@ != "gigaam"@,
        "moonshine-tiny-streaming-en"@ != "gigaam-v3"@,
        "moonshine-tiny-streaming-en"@ != "canary"@,
        "moonshine-tiny-streaming-en"@ != "canary-180m"@,
        "moonshine-tiny-streaming-en"@ != "canary-1b"@,
        "moonshine-tiny-streaming-en"@ != "cohere"@,
        "moonshine-small-streaming-en"@ != "moonshine-medium-streaming-en"@,
        "moonshine-small-streaming-en"@ != "gigaam"@,
        "moonshine-small-streaming-en"@ != "gigaam-v3"@,
        "moonshine-small-streaming-en"@ != "canary"@,
        "moonshine-small-streaming-en"@ != "canary-180m"@,
        "moonshine-small-streaming-en"@ != "canary-1b"@,
        "moonshine-small-streaming-en"@ != "cohere"@,
        "moonshine-medium-streaming-en"@ != "gigaam"@,
        "moonshine-medium-streaming-en"@ != "gigaam-v3"@,
        "moonshine-medium-streaming-en"@ != "canary"@,
        "moonshine-medium-streaming-en"@ != "canary-180m"@,
        "moonshine-medium-streaming-en"@ != "canary-1b"@,
        "moonshine-medium-streaming-en"@ != "cohere"@,
        "gigaam"@ != "gigaam-v3"@,
        "gigaam"@ != "canary"@,
        "gigaam"@ != "canary-180m"@,
        "gigaam"@ != "canary-1b"@,
        "gigaam"@ != "cohere"@,
        "gigaam-v3"@ != "canary"@,
        "gigaam-v3"@ != "canary-180m"@,
        "gigaam-v3"@ != "canary-1b"@,
        "gigaam-v3"@ != "cohere"@,
        "canary"@ != "canary-180m"@,
        "canary"@ != "canary-1b"@,
        "canary"@ != "cohere"@,
        "canary-180m"@ != "canary-1b"@,
        "canary-180m"@ != "cohere"@,
        "canary-1b"@ != "cohere"@,
{
    reveal_strlit("whisper");
    reveal_strlit("sensevoice");
    reveal_strlit("parakeet");
    reveal_strlit("parakeet-v2");
    reveal_strlit("parakeet-v3");
    reveal_strlit("moonshine");
    reveal_strlit("moonshine-base");
    reveal_strlit("moonshine-streaming");
    reveal_strlit("moonshinestreaming");
    reveal_strlit("moonshine-tiny-streaming-en");
    reveal_strlit("moonshine-small-streaming-en");
    reveal_strlit("moonshine-medium-streaming-en");
    reveal_strlit("gigaam");
    reveal_strlit("gigaam-v3");
    reveal_strlit("canary");
    reveal_strlit("canary-180m");
    reveal_strlit("canary-1b");
    reveal_strlit("cohere");
    assert("whisper"@.len() != "sensevoice"@.len());
    assert("whisper"@.len() != "parakeet"@.len());
    assert("whisper"@.len() != "parakeet-v2"@.len());
    assert("whisper"@.len() != "parakeet-v3"@.len());
    assert("whisper"@.len() != "moonshine"@.len());
    assert("whisper"@.len() != "moonshine-base"@.len());
    assert("whisper"@.len() != "moonshine-streaming"@.len());
    assert("whisper"@.len() != "moonshinestreaming"@.len());
    assert("whisper"@.len() != "moonshine-tiny-streaming-en"@.len());
    assert("whisper"@.len() != "moonshine-small-streaming-en"@.len());
    assert("whisper"@.len() != "moonshine-medium-streaming-en"@.len());
    assert("whisper"@.len() != "gigaam"@.len());
    assert("whisper"@.len() != "gigaam-v3"@.len());
    assert("whisper"@.len() != "canary"@.len());
    assert("whisper"@.len() != "canary-180m"@.len());
    assert("whisper"@.len() != "canary-1b"@.len());
    assert("whisper"@.len() != "cohere"@.len());
    assert("sensevoice"@.len() != "parakeet"@.len());
    assert("sensevoice"@.len() != "parakeet-v2"@.len());
    assert("sensevoice"@.len() != "parakeet-v3"@.len());
    assert("sensevoice"@.len() != "moonshine"@.len());
    assert("sensevoice"@.len() != "moonshine-base"@.len());
    assert("sensevoice"@.len() != "moonshine-streaming"@.len());
    assert("sensevoice"@.len() != "moonshinestreaming"@.len());
    assert("sensevoice"@.len() != "moonshine-tiny-streaming-en"@.len());
    assert("sensevoice"@.len() != "moonshine-small-streaming-en"@.len());
    assert("sensevoice"@.len() != "moonshine-medium-streaming-en"@.len());
    assert("sensevoice"@.len() != "gigaam"@.len());
    assert("sensevoice"@.len() != "gigaam-v3"@.len());
    assert("sensevoice"@.len() != "canary"@.len());
    assert("sensevoice"@.len() != "canary-180m"@.len());
    assert("sensevoice"@.len() != "canary-1b"@.len());
    assert("sensevoice"@.len() != "cohere"@.len());
    assert("parakeet"@.len() != "parakeet-v2"@.len());
    assert("parakeet"@.len() != "parakeet-v3"@.len());
    assert("parakeet"@.len() != "moonshine"@.len());
    assert("parakeet"@.len() != "moonshine-base"@.len());
    assert("parakeet"@.len() != "moonshine-streaming"@.len());
    assert("parakeet"@.len() != "moonshinestreaming"@.len());
    assert("parakeet"@.len() != "moonshine-tiny-streaming-en"@.len());
    assert("parakeet"@.len() != "moonshine-small-streaming-en"@.len());
    assert("parakeet"@.len() != "moonshine-medium-streaming-en"@.len());
    assert("parakeet"@.len() != "gigaam"@.len());
    assert("parakeet"@.len() != "gigaam-v3"@.len());
    assert("parakeet"@.len() != "canary"@.len());
    assert("parakeet"@.len() != "canary-180m"@.len());
    assert("parakeet"@.len() != "canary-1b"@.len());
    assert("parakeet"@.len() != "cohere"@.len());
    assert("parakeet-v2"@[10] != "parakeet-v3"@[10]);
    assert("parakeet-v2"@.len() != "moonshine"@.len());
    assert("parakeet-v2"@.len() != "moonshine-base"@.len());
    assert("parakeet-v2"@.len() != "moonshine-streaming"@.len());
    assert("parakeet-v2"@.len() != "moonshinestreaming"@.len());
    assert("parakeet-v2"@.len() != "moonshine-tiny-streaming-en"@.len());
    assert("parakeet-v2"@.len() != "moonshine-small-streaming-en"@.len());
    assert("parakeet-v2"@.len() != "moonshine-medium-streaming-en"@.len());
    assert("parakeet-v2"@.len() != "gigaam"@.len());
    assert("parakeet-v2"@.len() != "gigaam-v3"@.len());
    assert("parakeet-v2"@.len() != "canary"@.len());
    assert("parakeet-v2"@[0] != "canary-180m"@[0]);
    assert("parakeet-v2"@.len() != "canary-1b"@.len());
    assert("parakeet-v2"@.len() != "cohere"@.len());
    assert("parakeet-v3"@.len() != "moonshine"@.len());
    assert("parakeet-v3"@.len() != "moonshine-base"@.len());
    assert("parakeet-v3"@.len() != "moonshine-streaming"@.len());
    assert("parakeet-v3"@.len() != "moonshinestreaming"@.len());
    assert("parakeet-v3"@.len() != "moonshine-tiny-streaming-en"@.len());
    assert("parakeet-v3"@.len() != "moonshine-small-streaming-en"@.len());
    assert("parakeet-v3"@.len() != "moonshine-medium-streaming-en"@.len());
    assert("parakeet-v3"@.len() != "gigaam"@.len());
    assert("parakeet-v3"@.len() != "gigaam-v3"@.len());
    assert("parakeet-v3"@.len() != "canary"@.len());
    assert("parakeet-v3"@[0] != "canary-180m"@[0]);
    assert("parakeet-v3"@.len() != "canary-1b"@.len());
    assert("parakeet-v3"@.len() != "cohere"@.len());
    assert("moonshine"@.len() != "moonshine-base"@.len());
    assert("moonshine"@.len() != "moonshine-streaming"@.len());
    assert("moonshine"@.len() != "moonshinestreaming"@.len());
    assert("moonshine"@.len() != "moonshine-tiny-streaming-en"@.len());
    assert("moonshine"@.len() != "moonshine-small-streaming-en"@.len());
    assert("moonshine"@.len() != "moonshine-medium-streaming-en"@.len());
    assert("moonshine"@.len() != "gigaam"@.len());
    assert("moonshine"@[0] != "gigaam-v3"@[0]);
    assert("moonshine"@.len() != "canary"@.len());
    assert("moonshine"@.len() != "canary-180m"@.len());
    assert("moonshine"@[0] != "canary-1b"@[0]);
    assert("moonshine"@.len() != "cohere"@.len());
    assert("moonshine-base"@.len() != "moonshine-streaming"@.len());
    assert("moonshine-base"@.len() != "moonshinestreaming"@.len());
    assert("moonshine-base"@.len() != "moonshine-tiny-streaming-en"@.len());
    assert("moonshine-base"@.len() != "moonshine-small-streaming-en"@.len());
    assert("moonshine-base"@.len() != "moonshine-medium-streaming-en"@.len());
    assert("moonshine-base"@.len() != "gigaam"@.len());
    assert("moonshine-base"@.len() != "gigaam-v3"@.len());
    assert("moonshine-base"@.len() != "canary"@.len());
    assert("moonshine-base"@.len() != "canary-180m"@.len());
    assert("moonshine-base"@.len() != "canary-1b"@.len());
    assert("moonshine-base"@.len() != "cohere"@.len());
    assert("moonshine-streaming"@.len() != "moonshinestreaming"@.len());
    assert("moonshine-streaming"@.len() != "moonshine-tiny-streaming-en"@.len());
    assert("moonshine-streaming"@.len() != "moonshine-small-streaming-en"@.len());
    assert("moonshine-streaming"@.len() != "moonshine-medium-streaming-en"@.len());
    assert("moonshine-streaming"@.len() != "gigaam"@.len());
    assert("moonshine-streaming"@.len() != "gigaam-v3"@.len());
    assert("moonshine-streaming"@.len() != "canary"@.len());
    assert("moonshine-streaming"@.len() != "canary-180m"@.len());
    assert("moonshine-streaming"@.len() != "canary-1b"@.len());
    assert("moonshine-streaming"@.len() != "cohere"@.len());
    assert("moonshinestreaming"@.len() != "moonshine-tiny-streaming-en"@.len());
    assert("moonshinestreaming"@.len() != "moonshine-small-streaming-en"@.len());
    assert("moonshinestreaming"@.len() != "moonshine-medium-streaming-en"@.len());
    assert("moonshinestreaming"@.len() != "gigaam"@.len());
    assert("moonshinestreaming"@.len() != "gigaam-v3"@.len());
    assert("moonshinestreaming"@.len() != "canary"@.len());
    assert("moonshinestreaming"@.len() != "canary-180m"@.len());
    assert("moonshinestreaming"@.len() != "canary-1b"@.len());
    assert("moonshinestreaming"@.len() != "cohere"@.len());
    assert("moonshine-tiny-streaming-en"@.len() != "moonshine-small-streaming-en"@.len());
    assert("moonshine-tiny-streaming-en"@.len() != "moonshine-medium-streaming-en"@.len());
    assert("moonshine-tiny-streaming-en"@.len() != "gigaam"@.len());
    assert("moonshine-tiny-streaming-en"@.len() != "gigaam-v3"@.len());
    assert("moonshine-tiny-streaming-en"@.len() != "canary"@.len());
    assert("moonshine-tiny-streaming-en"@.len() != "canary-180m"@.len());
    assert("moonshine-tiny-streaming-en"@.len() != "canary-1b"@.len());
    assert("moonshine-tiny-streaming-en"@.len() != "cohere"@.len());
    assert("moonshine-small-streaming-en"@.len() != "moonshine-medium-streaming-en"@.len());
    assert("moonshine-small-streaming-en"@.len() != "gigaam"@.len());
    assert("moonshine-small-streaming-en"@.len() != "gigaam-v3"@.len());
    assert("moonshine-small-streaming-en"@.len() != "canary"@.len());
    assert("moonshine-small-streaming-en"@.len() != "canary-180m"@.len());
    assert("moonshine-small-streaming-en"@.len() != "canary-1b"@.len());
    assert("moonshine-small-streaming-en"@.len() != "cohere"@.len());
    assert("moonshine-medium-streaming-en"@.len() != "gigaam"@.len());
    assert("moonshine-medium-streaming-en"@.len() != "gigaam-v3"@.len());
    assert("moonshine-medium-streaming-en"@.len() != "canary"@.len());
    assert("moonshine-medium-streaming-en"@.len() != "canary-180m"@.len());
    assert("moonshine-medium-streaming-en"@.len() != "canary-1b"@.len());
    assert("moonshine-medium-streaming-en"@.len() != "cohere"@.len());
    assert("gigaam"@.len() != "gigaam-v3"@.len());
    assert("gigaam"@[0] != "canary"@[0]);
    assert("gigaam"@.len() != "canary-180m"@.len());
    assert("gigaam"@.len() != "canary-1b"@.len());
    assert("gigaam"@[0] != "cohere"@[0]);
    assert("gigaam-v3"@.len() != "canary"@.len());
    assert("gigaam-v3"@.len() != "canary-180m"@.len());
    assert("gigaam-v3"@[0] != "canary-1b"@[0]);
    assert("gigaam-v3"@.len() != "cohere"@.len());
    assert("canary"@.len() != "canary-180m"@.len());
    assert("canary"@.len() != "canary-1b"@.len());
    assert("canary"@[1] != "cohere"@[1]);
    assert("canary-180m"@.len() != "canary-1b"@.len());
    assert("canary-180m"@.len() != "cohere"@.len());
    assert("canary-1b"@.len() != "cohere"@.len());
}


/// Every engine name the server knows loads its own kind of transcriber: "whisper" Whisper,
/// "sensevoice" SenseVoice, the Parakeet names Parakeet, the Moonshine names Moonshine,
/// "gigaam" and "gigaam-v3" GigaAM, the Canary names Canary and "cohere" Cohere.
pub proof fn law_engine_names_load_their_kind()
    ensures
        spec_engine_kind("whisper"@) == Some(TranscriberKind::Whisper),
        spec_engine_kind("sensevoice"@) == Some(TranscriberKind::SenseVoice),
        spec_engine_kind("parakeet"@) == Some(TranscriberKind::Parakeet),
        spec_engine_kind("parakeet-v2"@) == Some(TranscriberKind::Parakeet),
        spec_engine_kind("parakeet-v3"@) == Some(TranscriberKind::Parakeet),
        spec_engine_kind("moonshine"@) == Some(TranscriberKind::Moonshine),
        spec_engine_kind("moonshine-base"@) == Some(TranscriberKind::Moonshine),
        spec_engine_kind("moonshine-streaming"@) == Some(TranscriberKind::Moonshine),
        spec_engine_kind("moonshinestreaming"@) == Some(TranscriberKind::Moonshine),
        spec_engine_kind("moonshine-tiny-streaming-en"@) == Some(TranscriberKind::Moonshine),
        spec_engine_kind("moonshine-small-streaming-en"@) == Some(TranscriberKind::Moonshine),
        spec_engine_kind("moonshine-medium-streaming-en"@) == Some(TranscriberKind::Moonshine),
        spec_engine_kind("gigaam"@) == Some(TranscriberKind::GigaAM),
        spec_engine_kind("gigaam-v3"@) == Some(TranscriberKind::GigaAM),
        spec_engine_kind("canary"@) == Some(TranscriberKind::Canary),
        spec_engine_kind("canary-180m"@) == Some(TranscriberKind::Canary),
        spec_engine_kind("canary-1b"@) == Some(TranscriberKind::Canary),
        spec_engine_kind("cohere"@) == Some(TranscriberKind::Cohere),
{
    lemma_engine_names_distinct();
    reveal_strlit(".bin");
    reveal_strlit("canary");
    reveal_strlit("canary-180m");
    reveal_strlit("canary-180m-flash");
    reveal_strlit("canary-1b");
    reveal_strlit("canary-1b-v2");
    reveal_strlit("cohere");
    reveal_strlit("cohere-int8");
    reveal_strlit("ggml-");
    reveal_strlit("ggml-small.bin");
    reveal_strlit("gigaam");
    reveal_strlit("gigaam-v3");
    reveal_strlit("gigaam-v3-e2e-ctc");
    reveal_strlit("moonshine");
    reveal_strlit("moonshine-base");
    reveal_strlit("moonshine-medium-streaming-en");
    reveal_strlit("moonshine-small-streaming-en");
    reveal_strlit("moonshine-streaming");
    reveal_strlit("moonshine-tiny-streaming-en");
    reveal_strlit("moonshinestreaming");
    reveal_strlit("parakeet");
    reveal_strlit("parakeet-tdt-0.6b-v2");
    reveal_strlit("parakeet-v2");
    reveal_strlit("parakeet-v3");
    reveal_strlit("sense-voice-int8");
    reveal_strlit("sensevoice");
    reveal_strlit("small");
    reveal_strlit("whisper");
}

/// With its model on disk and no model configured, a server configured with an engine name
/// that has a default model of its own loads that engine's kind from the default model's
/// place in the model directory (Whisper models being single files "ggml-<id>.bin"); nothing
/// is loaded yet.
#[verifier::rlimit(50)]
pub proof fn law_engine_names_load_their_default_model(s: RouterState)
    requires
        s.model is None,
    ensures
        s.engine@ == "whisper"@ ==> spec_load_decision(s, None, true) == Ok::<LoadStepView, Seq<char>>(
            LoadStepView::Load { kind: TranscriberKind::Whisper, model_path: joined_path(s.model_dir@, "ggml-small.bin"@) },
        ),
        s.engine@ == "sensevoice"@ ==> spec_load_decision(s, None, true) == Ok::<LoadStepView, Seq<char>>(
            LoadStepView::Load { kind: TranscriberKind::SenseVoice, model_path: joined_path(s.model_dir@, "sense-voice-int8"@) },
        ),
        s.engine@ == "parakeet"@ ==> spec_load_decision(s, None, true) == Ok::<LoadStepView, Seq<char>>(
            LoadStepView::Load { kind: TranscriberKind::Parakeet, model_path: joined_path(s.model_dir@, "parakeet-tdt-0.6b-v2"@) },
        ),
        s.engine@ == "moonshine"@ ==> spec_load_decision(s, None, true) == Ok::<LoadStepView, Seq<char>>(
            LoadStepView::Load { kind: TranscriberKind::Moonshine, model_path: joined_path(s.model_dir@, "moonshine-base"@) },
        ),
        s.engine@ == "moonshine-base"@ ==> spec_load_decision(s, None, true) == Ok::<LoadStepView, Seq<char>>(
            LoadStepView::Load { kind: TranscriberKind::Moonshine, model_path: joined_path(s.model_dir@, "moonshine-base"@) },
        ),
        s.engine@ == "moonshine-streaming"@ ==> spec_load_decision(s, None, true) == Ok::<LoadStepView, Seq<char>>(
            LoadStepView::Load { kind: TranscriberKind::Moonshine, model_path: joined_path(s.model_dir@, "moonshine-tiny-streaming-en"@) },
        ),
        s.engine@ == "moonshinestreaming"@ ==> spec_load_decision(s, None, true) == Ok::<LoadStepView, Seq<char>>(
            LoadStepView::Load { kind: TranscriberKind::Moonshine, model_path: joined_path(s.model_dir@, "moonshine-tiny-streaming-en"@) },
        ),
        s.engine@ == "moonshine-tiny-streaming-en"@ ==> spec_load_decision(s, None, true) == Ok::<LoadStepView, Seq<char>>(
            LoadStepView::Load { kind: TranscriberKind::Moonshine, model_path: joined_path(s.model_dir@, "moonshine-tiny-streaming-en"@) },
        ),
        s.engine@ == "moonshine-small-streaming-en"@ ==> spec_load_decision(s, None, true) == Ok::<LoadStepView, Seq<char>>(
            LoadStepView::Load { kind: TranscriberKind::Moonshine, model_path: joined_path(s.model_dir@, "moonshine-small-streaming-en"@) },
        ),
        s.engine@ == "moonshine-medium-streaming-en"@ ==> spec_load_decision(s, None, true) == Ok::<LoadStepView, Seq<char>>(
            LoadStepView::Load { kind: TranscriberKind::Moonshine, model_path: joined_path(s.model_dir@, "moonshine-medium-streaming-en"@) },
        ),
        s.engine@ == "gigaam"@ ==> spec_load_decision(s, None, true) == Ok::<LoadStepView, Seq<char>>(
            LoadStepView::Load { kind: TranscriberKind::GigaAM, model_path: joined_path(s.model_dir@, "gigaam-v3-e2e-ctc"@) },
        ),
        s.engine@ == "gigaam-v3"@ ==> spec_load_decision(s, None, true) == Ok::<LoadStepView, Seq<char>>(
            LoadStepView::Load { kind: TranscriberKind::GigaAM, model_path: joined_path(s.model_dir@, "gigaam-v3-e2e-ctc"@) },
        ),
        s.engine@ == "canary"@ ==> spec_load_decision(s, None, true) == Ok::<LoadStepView, Seq<char>>(
            LoadStepView::Load { kind: TranscriberKind::Canary, model_path: joined_path(s.model_dir@, "canary-180m-flash"@) },
        ),
        s.engine@ == "canary-180m"@ ==> spec_load_decision(s, None, true) == Ok::<LoadStepView, Seq<char>>(
            LoadStepView::Load { kind: TranscriberKind::Canary, model_path: joined_path(s.model_dir@, "canary-180m-flash"@) },
        ),
        s.engine@ == "canary-1b"@ ==> spec_load_decision(s, None, true) == Ok::<LoadStepView, Seq<char>>(
            LoadStepView::Load { kind: TranscriberKind::Canary, model_path: joined_path(s.model_dir@, "canary-1b-v2"@) },
        ),
        s.engine@ == "cohere"@ ==> spec_load_decision(s, None, true) == Ok::<LoadStepView, Seq<char>>(
            LoadStepView::Load { kind: TranscriberKind::Cohere, model_path: joined_path(s.model_dir@, "cohere-int8"@) },
        ),
{
    reveal_strlit(".bin");
    reveal_strlit("canary");
    reveal_strlit("canary-180m");
    reveal_strlit("canary-180m-flash");
    reveal_strlit("canary-1b");
    reveal_strlit("canary-1b-v2");
    reveal_strlit("cohere");
    reveal_strlit("cohere-int8");
    reveal_strlit("ggml-");
    reveal_strlit("ggml-small.bin");
    reveal_strlit("gigaam");
    reveal_strlit("gigaam-v3");
    reveal_strlit("gigaam-v3-e2e-ctc");
    reveal_strlit("moonshine");
    reveal_strlit("moonshine-base");
    reveal_strlit("moonshine-medium-streaming-en");
    reveal_strlit("moonshine-small-streaming-en");
    reveal_strlit("moonshine-streaming");
    reveal_strlit("moonshine-tiny-streaming-en");
    reveal_strlit("moonshinestreaming");
    reveal_strlit("parakeet");
    reveal_strlit("parakeet-tdt-0.6b-v2");
    reveal_strlit("parakeet-v2");
    reveal_strlit("parakeet-v3");
    reveal_strlit("sense-voice-int8");
    reveal_strlit("sensevoice");
    reveal_strlit("small");
    reveal_strlit("whisper");
    assert("ggml-"@ + "small"@ + ".bin"@ =~= "ggml-small.bin"@);
    law_engine_names_load_their_kind();
    lemma_engine_names_distinct();
    if s.engine@ == "whisper"@ {
        assert(spec_default_model(s.engine@) == "small"@);
        assert(spec_model_file(s.engine@, "small"@) == "ggml-small.bin"@);
        assert(spec_engine_kind(s.engine@) == Some(TranscriberKind::Whisper));
    } else if s.engine@ == "sensevoice"@ {
        assert(spec_default_model(s.engine@) == "sense-voice-int8"@);
        assert(spec_model_file(s.engine@, "sense-voice-int8"@) == "sense-voice-int8"@);
        assert(spec_engine_kind(s.engine@) == Some(TranscriberKind::SenseVoice));
    } else if s.engine@ == "parakeet"@ {
        assert(spec_default_model(s.engine@) == "parakeet-tdt-0.6b-v2"@);
        assert(spec_model_file(s.engine@, "parakeet-tdt-0.6b-v2"@) == "parakeet-tdt-0.6b-v2"@);
        assert(spec_engine_kind(s.engine@) == Some(TranscriberKind::Parakeet));
    } else if s.engine@ == "moonshine"@ {
        assert(spec_default_model(s.engine@) == "moonshine-base"@);
        assert(spec_model_file(s.engine@, "moonshine-base"@) == "moonshine-base"@);
        assert(spec_engine_kind(s.engine@) == Some(TranscriberKind::Moonshine));
    } else if s.engine@ == "moonshine-base"@ {
        assert(spec_default_model(s.engine@) == "moonshine-base"@);
        assert(spec_model_file(s.engine@, "moonshine-base"@) == "moonshine-base"@);
        assert(spec_engine_kind(s.engine@) == Some(TranscriberKind::Moonshine));
    } else if s.engine@ == "moonshine-streaming"@ {
        assert(spec_default_model(s.engine@) == "moonshine-tiny-streaming-en"@);
        assert(spec_model_file(s.engine@, "moonshine-tiny-streaming-en"@) == "moonshine-tiny-streaming-en"@);
        assert(spec_engine_kind(s.engine@) == Some(TranscriberKind::Moonshine));
    } else if s.engine@ == "moonshinestreaming"@ {
        assert(spec_default_model(s.engine@) == "moonshine-tiny-streaming-en"@);
        assert(spec_model_file(s.engine@, "moonshine-tiny-streaming-en"@) == "moonshine-tiny-streaming-en"@);
        assert(spec_engine_kind(s.engine@) == Some(TranscriberKind::Moonshine));
    } else if s.engine@ == "moonshine-tiny-streaming-en"@ {
        assert(spec_default_model(s.engine@) == "moonshine-tiny-streaming-en"@);
        assert(spec_model_file(s.engine@, "moonshine-tiny-streaming-en"@) == "moonshine-tiny-streaming-en"@);
        assert(spec_engine_kind(s.engine@) == Some(TranscriberKind::Moonshine));
    } else if s.engine@ == "moonshine-small-streaming-en"@ {
        assert(spec_default_model(s.engine@) == "moonshine-small-streaming-en"@);
        assert(spec_model_file(s.engine@, "moonshine-small-streaming-en"@) == "moonshine-small-streaming-en"@);
        assert(spec_engine_kind(s.engine@) == Some(TranscriberKind::Moonshine));
    } else if s.engine@ == "moonshine-medium-streaming-en"@ {
        assert(spec_default_model(s.engine@) == "moonshine-medium-streaming-en"@);
        assert(spec_model_file(s.engine@, "moonshine-medium-streaming-en"@) == "moonshine-medium-streaming-en"@);
        assert(spec_engine_kind(s.engine@) == Some(TranscriberKind::Moonshine));
    } else if s.engine@ == "gigaam"@ {
        assert(spec_default_model(s.engine@) == "gigaam-v3-e2e-ctc"@);
        assert(spec_model_file(s.engine@, "gigaam-v3-e2e-ctc"@) == "gigaam-v3-e2e-ctc"@);
        assert(spec_engine_kind(s.engine@) == Some(TranscriberKind::GigaAM));
    } else if s.engine@ == "gigaam-v3"@ {
        assert(spec_default_model(s.engine@) == "gigaam-v3-e2e-ctc"@);
        assert(spec_model_file(s.engine@, "gigaam-v3-e2e-ctc"@) == "gigaam-v3-e2e-ctc"@);
        assert(spec_engine_kind(s.engine@) == Some(TranscriberKind::GigaAM));
    } else if s.engine@ == "canary"@ {
        assert(spec_default_model(s.engine@) == "canary-180m-flash"@);
        assert(spec_model_file(s.engine@, "canary-180m-flash"@) == "canary-180m-flash"@);
        assert(spec_engine_kind(s.engine@) == Some(TranscriberKind::Canary));
    } else if s.engine@ == "canary-180m"@ {
        assert(spec_default_model(s.engine@) == "canary-180m-flash"@);
        assert(spec_model_file(s.engine@, "canary-180m-flash"@) == "canary-180m-flash"@);
        assert(spec_engine_kind(s.engine@) == Some(TranscriberKind::Canary));
    } else if s.engine@ == "canary-1b"@ {
        assert(spec_default_model(s.engine@) == "canary-1b-v2"@);
        assert(spec_model_file(s.engine@, "canary-1b-v2"@) == "canary-1b-v2"@);
        assert(spec_engine_kind(s.engine@) == Some(TranscriberKind::Canary));
    } else if s.engine@ == "cohere"@ {
        assert(spec_default_model(s.engine@) == "cohere-int8"@);
        assert(spec_model_file(s.engine@, "cohere-int8"@) == "cohere-int8"@);
        assert(spec_engine_kind(s.engine@) == Some(TranscriberKind::Cohere));
    }
}

/// A language hint reaches the engines that take one (Whisper, SenseVoice, Canary, Cohere)
/// unchanged, except the two written forms of Chinese, which reach them as "zh"; a request's
/// own language wins over the configured one.
pub proof fn law_request_language_reaches_engine(
    s: RouterState,
    k: TranscriberKind,
    l: Seq<char>,
    translate: bool,
)
    requires
        k == TranscriberKind::Whisper || k == TranscriberKind::SenseVoice || k
            == TranscriberKind::Canary || k == TranscriberKind::Cohere,
    ensures
        l != "zh-Hans"@ && l != "zh-Hant"@ ==> (spec_transcription_plan(s, Some(k), Some(l), translate)
            matches Ok(q) && q.language == Some(l)),
        l == "zh-Hans"@ || l == "zh-Hant"@ ==> (spec_transcription_plan(s, Some(k), Some(l), translate)
            matches Ok(q) && q.language == Some("zh"@)),
{
    crate::transcriber::law_normalize_changes_only_chinese(l);
}

} // verus!
