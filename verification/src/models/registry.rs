//! The catalogue of models that can be downloaded.

use crate::text::same_text;
use vstd::multiset::Multiset;
use vstd::prelude::*;

verus! {

/// The speech engines a model can belong to.
#[derive(PartialEq, Eq, Structural, Clone, Copy, Debug)]
pub enum EngineType {
    Whisper,
    SenseVoice,
    Parakeet,
    Moonshine,
    GigaAM,
    Canary,
    Cohere,
}

/// The lower-case name of an engine, as it is written in requests and answers.
pub open spec fn spec_engine_name(e: EngineType) -> Seq<char> {
    match e {
        EngineType::Whisper => "whisper"@,
        EngineType::SenseVoice => "sensevoice"@,
        EngineType::Parakeet => "parakeet"@,
        EngineType::Moonshine => "moonshine"@,
        EngineType::GigaAM => "gigaam"@,
        EngineType::Canary => "canary"@,
        EngineType::Cohere => "cohere"@,
    }
}

/// The display name of an engine.
pub open spec fn spec_engine_label(e: EngineType) -> Seq<char> {
    match e {
        EngineType::Whisper => "Whisper"@,
        EngineType::SenseVoice => "SenseVoice"@,
        EngineType::Parakeet => "Parakeet"@,
        EngineType::Moonshine => "Moonshine"@,
        EngineType::GigaAM => "GigaAM"@,
        EngineType::Canary => "Canary"@,
        EngineType::Cohere => "Cohere"@,
    }
}

/// The engine whose lower-case name is `name`, if any.
pub open spec fn spec_engine_from_name(name: Seq<char>) -> Option<EngineType> {
    if name == "whisper"@ {
        Some(EngineType::Whisper)
    } else if name == "sensevoice"@ {
        Some(EngineType::SenseVoice)
    } else if name == "parakeet"@ {
        Some(EngineType::Parakeet)
    } else if name == "moonshine"@ {
        Some(EngineType::Moonshine)
    } else if name == "gigaam"@ {
        Some(EngineType::GigaAM)
    } else if name == "canary"@ {
        Some(EngineType::Canary)
    } else if name == "cohere"@ {
        Some(EngineType::Cohere)
    } else {
        None
    }
}

impl EngineType {
    /// The lower-case name of the engine.
    pub fn name(&self) -> (r: &'static str)
        ensures
            r@ == spec_engine_name(*self),
    {
        match self {
            EngineType::Whisper => "whisper",
            EngineType::SenseVoice => "sensevoice",
            EngineType::Parakeet => "parakeet",
            EngineType::Moonshine => "moonshine",
            EngineType::GigaAM => "gigaam",
            EngineType::Canary => "canary",
            EngineType::Cohere => "cohere",
        }
    }

    /// The display name of the engine.
    pub fn label(&self) -> (r: &'static str)
        ensures
            r@ == spec_engine_label(*self),
    {
        match self {
            EngineType::Whisper => "Whisper",
            EngineType::SenseVoice => "SenseVoice",
            EngineType::Parakeet => "Parakeet",
            EngineType::Moonshine => "Moonshine",
            EngineType::GigaAM => "GigaAM",
            EngineType::Canary => "Canary",
            EngineType::Cohere => "Cohere",
        }
    }

    /// The engine with the given lower-case name, if any.
    pub fn from_name(name: &str) -> (r: Option<EngineType>)
        ensures
            r == spec_engine_from_name(name@),
    {
        if same_text(name, "whisper") {
            Some(EngineType::Whisper)
        } else if same_text(name, "sensevoice") {
            Some(EngineType::SenseVoice)
        } else if same_text(name, "parakeet") {
            Some(EngineType::Parakeet)
        } else if same_text(name, "moonshine") {
            Some(EngineType::Moonshine)
        } else if same_text(name, "gigaam") {
            Some(EngineType::GigaAM)
        } else if same_text(name, "canary") {
            Some(EngineType::Canary)
        } else if same_text(name, "cohere") {
            Some(EngineType::Cohere)
        } else {
            None
        }
    }
}

/// A downloadable model. Scores are in hundredths (85 stands for 0.85).
#[derive(Debug)]
pub struct ModelInfo {
    pub id: String,
    pub name: String,
    pub description: String,
    pub filename: String,
    pub url: Option<String>,
    pub size_mb: u64,
    pub engine_type: EngineType,
    pub accuracy_score: u32,
    pub speed_score: u32,
    pub supported_languages: Vec<String>,
    pub is_recommended: bool,
}

/// A model as the contracts see it.
pub struct ModelInfoView {
    pub id: Seq<char>,
    pub name: Seq<char>,
    pub description: Seq<char>,
    pub filename: Seq<char>,
    pub url: Option<Seq<char>>,
    pub size_mb: u64,
    pub engine_type: EngineType,
    pub accuracy_score: u32,
    pub speed_score: u32,
    pub supported_languages: Seq<Seq<char>>,
    pub is_recommended: bool,
}

/// The views of a list of texts.
pub open spec fn texts_view(v: Seq<String>) -> Seq<Seq<char>> {
    v.map_values(|s: String| s@)
}

impl View for ModelInfo {
    type V = ModelInfoView;

    open spec fn view(&self) -> ModelInfoView {
        ModelInfoView {
            id: self.id@,
            name: self.name@,
            description: self.description@,
            filename: self.filename@,
            url: match self.url {
                Some(u) => Some(u@),
                None => None,
            },
            size_mb: self.size_mb,
            engine_type: self.engine_type,
            accuracy_score: self.accuracy_score,
            speed_score: self.speed_score,
            supported_languages: texts_view(self.supported_languages@),
            is_recommended: self.is_recommended,
        }
    }
}

/// The views of a list of models.
pub open spec fn models_view(v: Seq<ModelInfo>) -> Seq<ModelInfoView> {
    v.map_values(|m: ModelInfo| m@)
}

/// The view of an optional model.
pub open spec fn opt_model_view(o: Option<ModelInfo>) -> Option<ModelInfoView> {
    match o {
        Some(m) => Some(m@),
        None => None,
    }
}

/// One catalogue entry whose download URL is the CDN address of its file.
pub open spec fn entry(
    id: Seq<char>,
    name: Seq<char>,
    description: Seq<char>,
    filename: Seq<char>,
    url: Seq<char>,
    size_mb: u64,
    engine_type: EngineType,
    accuracy_score: u32,
    speed_score: u32,
    supported_languages: Seq<Seq<char>>,
    is_recommended: bool,
) -> ModelInfoView {
    ModelInfoView {
        id,
        name,
        description,
        filename,
        url: Some(url),
        size_mb,
        engine_type,
        accuracy_score,
        speed_score,
        supported_languages,
        is_recommended,
    }
}

/// The languages of the multilingual Whisper models (and of Cohere's, which the README gives as
/// many): the hundred codes Whisper's tokenizer knows.
pub open spec fn whisper_languages() -> Seq<Seq<char>> {
    seq![
        "en"@, "zh"@, "de"@, "es"@, "ru"@, "ko"@, "fr"@, "ja"@, "pt"@, "tr"@, "pl"@, "ca"@,
        "nl"@, "ar"@, "sv"@, "it"@, "id"@, "hi"@, "fi"@, "vi"@, "he"@, "uk"@, "el"@, "ms"@,
        "cs"@, "ro"@, "da"@, "hu"@, "ta"@, "no"@, "th"@, "ur"@, "hr"@, "bg"@, "lt"@, "la"@,
        "mi"@, "ml"@, "cy"@, "sk"@, "te"@, "fa"@, "lv"@, "bn"@, "sr"@, "az"@, "sl"@, "kn"@,
        "et"@, "mk"@, "br"@, "eu"@, "is"@, "hy"@, "ne"@, "mn"@, "bs"@, "kk"@, "sq"@, "sw"@,
        "gl"@, "mr"@, "pa"@, "si"@, "km"@, "sn"@, "yo"@, "so"@, "af"@, "oc"@, "ka"@, "be"@,
        "tg"@, "sd"@, "gu"@, "am"@, "yi"@, "lo"@, "uz"@, "fo"@, "ht"@, "ps"@, "tk"@, "nn"@,
        "mt"@, "sa"@, "lb"@, "my"@, "bo"@, "tl"@, "mg"@, "as"@, "tt"@, "haw"@, "ln"@, "ha"@,
        "ba"@, "jw"@, "su"@, "yue"@,
    ]
}

/// The European languages of the multilingual Parakeet and Canary models.
pub open spec fn european_languages() -> Seq<Seq<char>> {
    seq![
        "bg"@, "hr"@, "cs"@, "da"@, "nl"@, "en"@, "et"@, "fi"@, "fr"@, "de"@, "el"@, "hu"@, "it"@,
        "lv"@, "lt"@, "mt"@, "pl"@, "pt"@, "ro"@, "sk"@, "sl"@, "es"@, "sv"@, "ru"@, "uk"@
    ]
}

/// The catalogue, in its order.
pub open spec fn catalogue() -> Seq<ModelInfoView> {
    seq![
        entry(
            "sense-voice-int8"@,
            "SenseVoice (int8)"@,
            "Optimized for Chinese, built-in punctuation"@,
            "sense-voice-int8"@,
            "https://blob.handy.computer/sense-voice-int8.tar.gz"@,
            152,
            EngineType::SenseVoice,
            85,
            80,
            seq!["zh"@, "en"@, "ja"@, "ko"@, "yue"@],
            true,
        ),
        entry(
            "tiny"@,
            "Whisper Tiny"@,
            "Fastest, lowest accuracy"@,
            "ggml-tiny.bin"@,
            "https://blob.handy.computer/ggml-tiny.bin"@,
            75,
            EngineType::Whisper,
            50,
            95,
            whisper_languages(),
            false,
        ),
        entry(
            "base"@,
            "Whisper Base"@,
            "Good balance"@,
            "ggml-base.bin"@,
            "https://blob.handy.computer/ggml-base.bin"@,
            150,
            EngineType::Whisper,
            65,
            85,
            whisper_languages(),
            false,
        ),
        entry(
            "small"@,
            "Whisper Small"@,
            "Recommended for most use cases"@,
            "ggml-small.bin"@,
            "https://blob.handy.computer/ggml-small.bin"@,
            465,
            EngineType::Whisper,
            75,
            70,
            whisper_languages(),
            true,
        ),
        entry(
            "medium"@,
            "Whisper Medium"@,
            "Higher accuracy, slower"@,
            "ggml-medium.bin"@,
            "https://blob.handy.computer/ggml-medium.bin"@,
            469,
            EngineType::Whisper,
            85,
            50,
            whisper_languages(),
            false,
        ),
        entry(
            "turbo"@,
            "Whisper Turbo"@,
            "Best accuracy/speed balance"@,
            "ggml-turbo.bin"@,
            "https://blob.handy.computer/ggml-turbo.bin"@,
            1500,
            EngineType::Whisper,
            90,
            65,
            whisper_languages(),
            false,
        ),
        entry(
            "large"@,
            "Whisper Large"@,
            "Highest accuracy, slowest"@,
            "ggml-large.bin"@,
            "https://blob.handy.computer/ggml-large.bin"@,
            1500,
            EngineType::Whisper,
            95,
            30,
            whisper_languages(),
            false,
        ),
        entry(
            "breeze-asr"@,
            "Breeze ASR"@,
            "Taiwanese Mandarin, code-switching"@,
            "ggml-breeze-asr.bin"@,
            "https://blob.handy.computer/ggml-breeze-asr.bin"@,
            1000,
            EngineType::Whisper,
            85,
            45,
            seq!["zh"@],
            false,
        ),
        entry(
            "parakeet-tdt-0.6b-v2"@,
            "Parakeet TDT 0.6B v2"@,
            "Best for English speakers"@,
            "parakeet-tdt-0.6b-v2"@,
            "https://blob.handy.computer/parakeet-tdt-0.6b-v2.tar.gz"@,
            451,
            EngineType::Parakeet,
            85,
            85,
            seq!["en"@],
            false,
        ),
        entry(
            "parakeet-tdt-0.6b-v3"@,
            "Parakeet TDT 0.6B v3"@,
            "European languages"@,
            "parakeet-tdt-0.6b-v3"@,
            "https://blob.handy.computer/parakeet-tdt-0.6b-v3.tar.gz"@,
            456,
            EngineType::Parakeet,
            85,
            85,
            european_languages(),
            false,
        ),
        entry(
            "moonshine-base"@,
            "Moonshine Base"@,
            "Very fast, handles accents"@,
            "moonshine-base"@,
            "https://blob.handy.computer/moonshine-base.tar.gz"@,
            55,
            EngineType::Moonshine,
            70,
            95,
            seq!["en"@],
            false,
        ),
        entry(
            "moonshine-tiny-streaming-en"@,
            "Moonshine Tiny Streaming"@,
            "Ultra-fast streaming"@,
            "moonshine-tiny-streaming-en"@,
            "https://blob.handy.computer/moonshine-tiny-streaming-en.tar.gz"@,
            31,
            EngineType::Moonshine,
            60,
            98,
            seq!["en"@],
            false,
        ),
        entry(
            "moonshine-small-streaming-en"@,
            "Moonshine Small Streaming"@,
            "Fast streaming"@,
            "moonshine-small-streaming-en"@,
            "https://blob.handy.computer/moonshine-small-streaming-en.tar.gz"@,
            99,
            EngineType::Moonshine,
            70,
            92,
            seq!["en"@],
            false,
        ),
        entry(
            "moonshine-medium-streaming-en"@,
            "Moonshine Medium Streaming"@,
            "High quality streaming"@,
            "moonshine-medium-streaming-en"@,
            "https://blob.handy.computer/moonshine-medium-streaming-en.tar.gz"@,
            192,
            EngineType::Moonshine,
            78,
            85,
            seq!["en"@],
            false,
        ),
        entry(
            "gigaam-v3-e2e-ctc"@,
            "GigaAM v3"@,
            "Russian speech recognition"@,
            "gigaam-v3-e2e-ctc"@,
            "https://blob.handy.computer/gigaam-v3-e2e-ctc.tar.gz"@,
            151,
            EngineType::GigaAM,
            85,
            85,
            seq!["ru"@],
            false,
        ),
        entry(
            "canary-180m-flash"@,
            "Canary 180M Flash"@,
            "Fast, supports translation"@,
            "canary-180m-flash"@,
            "https://blob.handy.computer/canary-180m-flash.tar.gz"@,
            146,
            EngineType::Canary,
            78,
            88,
            seq!["en"@, "de"@, "es"@, "fr"@],
            false,
        ),
        entry(
            "canary-1b-v2"@,
            "Canary 1B v2"@,
            "High accuracy, translation"@,
            "canary-1b-v2"@,
            "https://blob.handy.computer/canary-1b-v2.tar.gz"@,
            691,
            EngineType::Canary,
            88,
            60,
            european_languages(),
            false,
        ),
        entry(
            "cohere-int8"@,
            "Cohere (int8)"@,
            "Very high accuracy"@,
            "cohere-int8"@,
            "https://blob.handy.computer/cohere-int8.tar.gz"@,
            1700,
            EngineType::Cohere,
            92,
            45,
            whisper_languages(),
            false,
        ),
    ]
}

/// A list of texts.
fn texts(items: &[&str]) -> (r: Vec<String>)
    ensures
        texts_view(r@) == items@.map_values(|s: &str| s@),
{
    let mut out: Vec<String> = Vec::new();
    let mut i: usize = 0;
    while i < items.len()
        invariant
            i <= items@.len(),
            texts_view(out@) == items@.take(i as int).map_values(|s: &str| s@),
        decreases items@.len() - i,
    {
        let ghost prev = out@;
        let s = String::from_str(items[i]);
        out.push(s);
        assert(texts_view(out@) =~= texts_view(prev).push(s@));
        assert(items@.take(i + 1) =~= items@.take(i as int).push(items@[i as int]));
        assert(items@.take(i + 1).map_values(|s: &str| s@) =~= items@.take(i as int).map_values(
            |s: &str| s@,
        ).push(items@[i as int]@));
        i = i + 1;
    }
    assert(items@.take(items@.len() as int) =~= items@);
    out
}

/// One catalogue entry.
fn make_entry(
    id: &str,
    name: &str,
    description: &str,
    filename: &str,
    url: &str,
    size_mb: u64,
    engine_type: EngineType,
    accuracy_score: u32,
    speed_score: u32,
    supported_languages: Vec<String>,
    is_recommended: bool,
) -> (r: ModelInfo)
    ensures
        r@ == entry(
            id@,
            name@,
            description@,
            filename@,
            url@,
            size_mb,
            engine_type,
            accuracy_score,
            speed_score,
            texts_view(supported_languages@),
            is_recommended,
        ),
{
    ModelInfo {
        id: String::from_str(id),
        name: String::from_str(name),
        description: String::from_str(description),
        filename: String::from_str(filename),
        url: Some(String::from_str(url)),
        size_mb,
        engine_type,
        accuracy_score,
        speed_score,
        supported_languages,
        is_recommended,
    }
}

/// The Whisper languages.
fn whisper_language_list() -> (r: Vec<String>)
    ensures
        texts_view(r@) == whisper_languages(),
{
    let items: [&str; 100] = [
        "en", "zh", "de", "es", "ru", "ko", "fr", "ja", "pt", "tr", "pl", "ca",
        "nl", "ar", "sv", "it", "id", "hi", "fi", "vi", "he", "uk", "el", "ms",
        "cs", "ro", "da", "hu", "ta", "no", "th", "ur", "hr", "bg", "lt", "la",
        "mi", "ml", "cy", "sk", "te", "fa", "lv", "bn", "sr", "az", "sl", "kn",
        "et", "mk", "br", "eu", "is", "hy", "ne", "mn", "bs", "kk", "sq", "sw",
        "gl", "mr", "pa", "si", "km", "sn", "yo", "so", "af", "oc", "ka", "be",
        "tg", "sd", "gu", "am", "yi", "lo", "uz", "fo", "ht", "ps", "tk", "nn",
        "mt", "sa", "lb", "my", "bo", "tl", "mg", "as", "tt", "haw", "ln", "ha",
        "ba", "jw", "su", "yue",
    ];
    let r = texts(items.as_slice());
    assert(items@.map_values(|s: &str| s@) =~= whisper_languages());
    r
}

/// The European languages.
fn european_language_list() -> (r: Vec<String>)
    ensures
        texts_view(r@) == european_languages(),
{
    let items: [&str; 25] = [
        "bg", "hr", "cs", "da", "nl", "en", "et", "fi", "fr", "de", "el", "hu", "it", "lv", "lt",
        "mt", "pl", "pt", "ro", "sk", "sl", "es", "sv", "ru", "uk",
    ];
    let r = texts(items.as_slice());
    assert(items@.map_values(|s: &str| s@) =~= european_languages());
    r
}

/// The first model of `models` with the given id, if any.
pub open spec fn find_model(models: Seq<ModelInfoView>, id: Seq<char>) -> Option<ModelInfoView>
    decreases models.len(),
{
    if models.len() == 0 {
        None
    } else if models[0].id == id {
        Some(models[0])
    } else {
        find_model(models.drop_first(), id)
    }
}

/// Whether a model belongs to an engine.
pub open spec fn of_engine(engine: EngineType) -> spec_fn(ModelInfoView) -> bool {
    |m: ModelInfoView| m.engine_type == engine
}

/// The models of `models` that belong to `engine`, in order.
pub open spec fn models_of_engine(models: Seq<ModelInfoView>, engine: EngineType) -> Seq<ModelInfoView> {
    models.filter(of_engine(engine))
}

/// The model catalogue.
pub struct ModelRegistry;

impl ModelRegistry {
    /// All models, in catalogue order.
    pub fn available_models() -> (r: Vec<ModelInfo>)
        ensures
            models_view(r@) == catalogue(),
    {
        let mut v: Vec<ModelInfo> = Vec::new();
        let items1: [&str; 5] = ["zh", "en", "ja", "ko", "yue"];
        let langs1 = texts(items1.as_slice());
        assert(items1@.map_values(|s: &str| s@) =~= seq!["zh"@, "en"@, "ja"@, "ko"@, "yue"@]);
        v.push(
            make_entry(
                "sense-voice-int8",
                "SenseVoice (int8)",
                "Optimized for Chinese, built-in punctuation",
                "sense-voice-int8",
                "https://blob.handy.computer/sense-voice-int8.tar.gz",
                152,
                EngineType::SenseVoice,
                85,
                80,
                langs1,
                true,
            ),
        );
        v.push(
            make_entry(
                "tiny",
                "Whisper Tiny",
                "Fastest, lowest accuracy",
                "ggml-tiny.bin",
                "https://blob.handy.computer/ggml-tiny.bin",
                75,
                EngineType::Whisper,
                50,
                95,
                whisper_language_list(),
                false,
            ),
        );
        v.push(
            make_entry(
                "base",
                "Whisper Base",
                "Good balance",
                "ggml-base.bin",
                "https://blob.handy.computer/ggml-base.bin",
                150,
                EngineType::Whisper,
                65,
                85,
                whisper_language_list(),
                false,
            ),
        );
        v.push(
            make_entry(
                "small",
                "Whisper Small",
                "Recommended for most use cases",
                "ggml-small.bin",
                "https://blob.handy.computer/ggml-small.bin",
                465,
                EngineType::Whisper,
                75,
                70,
                whisper_language_list(),
                true,
            ),
        );
        v.push(
            make_entry(
                "medium",
                "Whisper Medium",
                "Higher accuracy, slower",
                "ggml-medium.bin",
                "https://blob.handy.computer/ggml-medium.bin",
                469,
                EngineType::Whisper,
                85,
                50,
                whisper_language_list(),
                false,
            ),
        );
        v.push(
            make_entry(
                "turbo",
                "Whisper Turbo",
                "Best accuracy/speed balance",
                "ggml-turbo.bin",
                "https://blob.handy.computer/ggml-turbo.bin",
                1500,
                EngineType::Whisper,
                90,
                65,
                whisper_language_list(),
                false,
            ),
        );
        v.push(
            make_entry(
                "large",
                "Whisper Large",
                "Highest accuracy, slowest",
                "ggml-large.bin",
                "https://blob.handy.computer/ggml-large.bin",
                1500,
                EngineType::Whisper,
                95,
                30,
                whisper_language_list(),
                false,
            ),
        );
        let items2: [&str; 1] = ["zh"];
        let langs2 = texts(items2.as_slice());
        assert(items2@.map_values(|s: &str| s@) =~= seq!["zh"@]);
        v.push(
            make_entry(
                "breeze-asr",
                "Breeze ASR",
                "Taiwanese Mandarin, code-switching",
                "ggml-breeze-asr.bin",
                "https://blob.handy.computer/ggml-breeze-asr.bin",
                1000,
                EngineType::Whisper,
                85,
                45,
                langs2,
                false,
            ),
        );
        let items3: [&str; 1] = ["en"];
        let langs3 = texts(items3.as_slice());
        assert(items3@.map_values(|s: &str| s@) =~= seq!["en"@]);
        v.push(
            make_entry(
                "parakeet-tdt-0.6b-v2",
                "Parakeet TDT 0.6B v2",
                "Best for English speakers",
                "parakeet-tdt-0.6b-v2",
                "https://blob.handy.computer/parakeet-tdt-0.6b-v2.tar.gz",
                451,
                EngineType::Parakeet,
                85,
                85,
                langs3,
                false,
            ),
        );
        v.push(
            make_entry(
                "parakeet-tdt-0.6b-v3",
                "Parakeet TDT 0.6B v3",
                "European languages",
                "parakeet-tdt-0.6b-v3",
                "https://blob.handy.computer/parakeet-tdt-0.6b-v3.tar.gz",
                456,
                EngineType::Parakeet,
                85,
                85,
                european_language_list(),
                false,
            ),
        );
        let items4: [&str; 1] = ["en"];
        let langs4 = texts(items4.as_slice());
        assert(items4@.map_values(|s: &str| s@) =~= seq!["en"@]);
        v.push(
            make_entry(
                "moonshine-base",
                "Moonshine Base",
                "Very fast, handles accents",
                "moonshine-base",
                "https://blob.handy.computer/moonshine-base.tar.gz",
                55,
                EngineType::Moonshine,
                70,
                95,
                langs4,
                false,
            ),
        );
        let items5: [&str; 1] = ["en"];
        let langs5 = texts(items5.as_slice());
        assert(items5@.map_values(|s: &str| s@) =~= seq!["en"@]);
        v.push(
            make_entry(
                "moonshine-tiny-streaming-en",
                "Moonshine Tiny Streaming",
                "Ultra-fast streaming",
                "moonshine-tiny-streaming-en",
                "https://blob.handy.computer/moonshine-tiny-streaming-en.tar.gz",
                31,
                EngineType::Moonshine,
                60,
                98,
                langs5,
                false,
            ),
        );
        let items6: [&str; 1] = ["en"];
        let langs6 = texts(items6.as_slice());
        assert(items6@.map_values(|s: &str| s@) =~= seq!["en"@]);
        v.push(
            make_entry(
                "moonshine-small-streaming-en",
                "Moonshine Small Streaming",
                "Fast streaming",
                "moonshine-small-streaming-en",
                "https://blob.handy.computer/moonshine-small-streaming-en.tar.gz",
                99,
                EngineType::Moonshine,
                70,
                92,
                langs6,
                false,
            ),
        );
        let items7: [&str; 1] = ["en"];
        let langs7 = texts(items7.as_slice());
        assert(items7@.map_values(|s: &str| s@) =~= seq!["en"@]);
        v.push(
            make_entry(
                "moonshine-medium-streaming-en",
                "Moonshine Medium Streaming",
                "High quality streaming",
                "moonshine-medium-streaming-en",
                "https://blob.handy.computer/moonshine-medium-streaming-en.tar.gz",
                192,
                EngineType::Moonshine,
                78,
                85,
                langs7,
                false,
            ),
        );
        let items8: [&str; 1] = ["ru"];
        let langs8 = texts(items8.as_slice());
        assert(items8@.map_values(|s: &str| s@) =~= seq!["ru"@]);
        v.push(
            make_entry(
                "gigaam-v3-e2e-ctc",
                "GigaAM v3",
                "Russian speech recognition",
                "gigaam-v3-e2e-ctc",
                "https://blob.handy.computer/gigaam-v3-e2e-ctc.tar.gz",
                151,
                EngineType::GigaAM,
                85,
                85,
                langs8,
                false,
            ),
        );
        let items9: [&str; 4] = ["en", "de", "es", "fr"];
        let langs9 = texts(items9.as_slice());
        assert(items9@.map_values(|s: &str| s@) =~= seq!["en"@, "de"@, "es"@, "fr"@]);
        v.push(
            make_entry(
                "canary-180m-flash",
                "Canary 180M Flash",
                "Fast, supports translation",
                "canary-180m-flash",
                "https://blob.handy.computer/canary-180m-flash.tar.gz",
                146,
                EngineType::Canary,
                78,
                88,
                langs9,
                false,
            ),
        );
        v.push(
            make_entry(
                "canary-1b-v2",
                "Canary 1B v2",
                "High accuracy, translation",
                "canary-1b-v2",
                "https://blob.handy.computer/canary-1b-v2.tar.gz",
                691,
                EngineType::Canary,
                88,
                60,
                european_language_list(),
                false,
            ),
        );
        v.push(
            make_entry(
                "cohere-int8",
                "Cohere (int8)",
                "Very high accuracy",
                "cohere-int8",
                "https://blob.handy.computer/cohere-int8.tar.gz",
                1700,
                EngineType::Cohere,
                92,
                45,
                whisper_language_list(),
                false,
            ),
        );
        assert(models_view(v@) =~= catalogue());
        v
    }

    /// The catalogue model with the given id, if any.
    pub fn get(id: &str) -> (r: Option<ModelInfo>)
        ensures
            opt_model_view(r) == find_model(catalogue(), id@),
    {
        let mut models = Self::available_models();
        let ghost cat = catalogue();
        let mut k: usize = 0;
        assert(cat.skip(0) =~= cat);
        assert(cat.len() == 18);
        while models.len() > 0
            invariant
                models_view(models@) == cat.skip(k as int),
                k + models@.len() == cat.len(),
                cat.len() == 18,
                cat == catalogue(),
                find_model(cat, id@) == find_model(cat.skip(k as int), id@),
            decreases models@.len(),
        {
            let ghost before = models_view(models@);
            assert(before[0] == models@[0]@);
            assert(before[0] == cat[k as int]);
            if same_text(models[0].id.as_str(), id) {
                let m = models.remove(0);
                assert(m@ == before[0]);
                assert(cat.skip(k as int).len() > 0);
                assert(find_model(cat.skip(k as int), id@) == Some(before[0]));
                return Some(m);
            }
            let _ = models.remove(0);
            assert(before.drop_first() =~= cat.skip(k + 1));
            assert(models_view(models@) =~= before.drop_first());
            k = k + 1;
        }
        proof {
            assert(cat.skip(k as int) =~= Seq::<ModelInfoView>::empty());
        }
        None
    }

    /// The models a listing shows: all of them without a filter, those of the named engine
    /// (lower-case name) with one, none for a name that is no engine's.
    pub fn listed(filter: Option<&str>) -> (r: Vec<ModelInfo>)
        ensures
            models_view(r@) == match filter {
                None => catalogue(),
                Some(name) => match spec_engine_from_name(name@) {
                    Some(e) => models_of_engine(catalogue(), e),
                    None => Seq::empty(),
                },
            },
    {
        match filter {
            None => Self::available_models(),
            Some(name) => match EngineType::from_name(name) {
                Some(e) => Self::by_engine(e),
                None => {
                    let v: Vec<ModelInfo> = Vec::new();
                    assert(models_view(v@) =~= Seq::empty());
                    v
                },
            },
        }
    }

    /// The catalogue models of one engine, in catalogue order.
    pub fn by_engine(engine: EngineType) -> (r: Vec<ModelInfo>)
        ensures
            models_view(r@) == models_of_engine(catalogue(), engine),
    {
        let mut models = Self::available_models();
        let ghost cat = catalogue();
        let mut out: Vec<ModelInfo> = Vec::new();
        let mut k: usize = 0;
        assert(cat.skip(0) =~= cat);
        assert(cat.len() == 18);
        assert(cat.take(0) =~= Seq::<ModelInfoView>::empty());
        reveal(Seq::filter);
        while models.len() > 0
            invariant
                models_view(models@) == cat.skip(k as int),
                k + models@.len() == cat.len(),
                cat.len() == 18,
                models_view(out@) == models_of_engine(cat.take(k as int), engine),
            decreases models@.len(),
        {
            let ghost before = models_view(models@);
            let ghost prev = out@;
            assert(before[0] == cat[k as int]);
            let m = models.remove(0);
            assert(m@ == before[0]);
            assert(cat.take(k + 1).drop_last() =~= cat.take(k as int));
            assert(cat.take(k + 1).last() == cat[k as int]);
            reveal(Seq::filter);
            if m.engine_type == engine {
                out.push(m);
                assert(models_view(out@) =~= models_view(prev).push(cat[k as int]));
            } else {
                assert(models_view(out@) =~= models_view(prev));
            }
            assert(before.drop_first() =~= cat.skip(k + 1));
            assert(models_view(models@) =~= before.drop_first());
            k = k + 1;
        }
        assert(cat.take(k as int) =~= cat);
        out
    }
}


/// A model found by id has that id, and is one of the models searched.
pub proof fn lemma_find_model(models: Seq<ModelInfoView>, id: Seq<char>)
    ensures
        find_model(models, id) matches Some(m) ==> m.id == id && models.contains(m),
        find_model(models, id) is None ==> forall|i: int| 0 <= i < models.len() ==> #[trigger] models[i].id != id,
    decreases models.len(),
{
    if models.len() > 0 && models[0].id != id {
        lemma_find_model(models.drop_first(), id);
        if let Some(m) = find_model(models, id) {
            let j = choose|j: int| 0 <= j < models.drop_first().len() && models.drop_first()[j] == m;
            assert(models[j + 1] == m);
        } else {
            assert forall|i: int| 0 <= i < models.len() implies #[trigger] models[i].id != id by {
                if i > 0 {
                    assert(models[i] == models.drop_first()[i - 1]);
                }
            }
        }
    } else if models.len() > 0 {
        assert(models[0] == models[0]);
    }
}

/// Looking a model up by id gives a catalogue model with that id, and gives none only when no
/// catalogue model has that id.
pub proof fn law_get_gives_model_with_id(id: Seq<char>)
    ensures
        find_model(catalogue(), id) matches Some(m) ==> m.id == id && catalogue().contains(m),
        find_model(catalogue(), id) is None <==> forall|i: int|
            0 <= i < catalogue().len() ==> #[trigger] catalogue()[i].id != id,
{
    lemma_find_model(catalogue(), id);
    if let Some(m) = find_model(catalogue(), id) {
        let j = choose|j: int| 0 <= j < catalogue().len() && catalogue()[j] == m;
        assert(catalogue()[j].id == id);
    }
}

/// No two catalogue models share an id.
pub proof fn law_catalogue_ids_distinct()
    ensures
        forall|i: int, j: int|
            0 <= i < catalogue().len() && 0 <= j < catalogue().len() && i != j ==> #[trigger] catalogue()[i].id
                != #[trigger] catalogue()[j].id,
{
    reveal_strlit("sense-voice-int8");
    reveal_strlit("tiny");
    reveal_strlit("base");
    reveal_strlit("small");
    reveal_strlit("medium");
    reveal_strlit("turbo");
    reveal_strlit("large");
    reveal_strlit("breeze-asr");
    reveal_strlit("parakeet-tdt-0.6b-v2");
    reveal_strlit("parakeet-tdt-0.6b-v3");
    reveal_strlit("moonshine-base");
    reveal_strlit("moonshine-tiny-streaming-en");
    reveal_strlit("moonshine-small-streaming-en");
    reveal_strlit("moonshine-medium-streaming-en");
    reveal_strlit("gigaam-v3-e2e-ctc");
    reveal_strlit("canary-180m-flash");
    reveal_strlit("canary-1b-v2");
    reveal_strlit("cohere-int8");
    let c = catalogue();
    assert(c[0].id.len() != c[1].id.len());
    assert(c[0].id.len() != c[2].id.len());
    assert(c[0].id.len() != c[3].id.len());
    assert(c[0].id.len() != c[4].id.len());
    assert(c[0].id.len() != c[5].id.len());
    assert(c[0].id.len() != c[6].id.len());
    assert(c[0].id.len() != c[7].id.len());
    assert(c[0].id.len() != c[8].id.len());
    assert(c[0].id.len() != c[9].id.len());
    assert(c[0].id.len() != c[10].id.len());
    assert(c[0].id.len() != c[11].id.len());
    assert(c[0].id.len() != c[12].id.len());
    assert(c[0].id.len() != c[13].id.len());
    assert(c[0].id.len() != c[14].id.len());
    assert(c[0].id.len() != c[15].id.len());
    assert(c[0].id.len() != c[16].id.len());
    assert(c[0].id.len() != c[17].id.len());
    assert(c[1].id[0] != c[2].id[0]);
    assert(c[1].id.len() != c[3].id.len());
    assert(c[1].id.len() != c[4].id.len());
    assert(c[1].id.len() != c[5].id.len());
    assert(c[1].id.len() != c[6].id.len());
    assert(c[1].id.len() != c[7].id.len());
    assert(c[1].id.len() != c[8].id.len());
    assert(c[1].id.len() != c[9].id.len());
    assert(c[1].id.len() != c[10].id.len());
    assert(c[1].id.len() != c[11].id.len());
    assert(c[1].id.len() != c[12].id.len());
    assert(c[1].id.len() != c[13].id.len());
    assert(c[1].id.len() != c[14].id.len());
    assert(c[1].id.len() != c[15].id.len());
    assert(c[1].id.len() != c[16].id.len());
    assert(c[1].id.len() != c[17].id.len());
    assert(c[2].id.len() != c[3].id.len());
    assert(c[2].id.len() != c[4].id.len());
    assert(c[2].id.len() != c[5].id.len());
    assert(c[2].id.len() != c[6].id.len());
    assert(c[2].id.len() != c[7].id.len());
    assert(c[2].id.len() != c[8].id.len());
    assert(c[2].id.len() != c[9].id.len());
    assert(c[2].id.len() != c[10].id.len());
    assert(c[2].id.len() != c[11].id.len());
    assert(c[2].id.len() != c[12].id.len());
    assert(c[2].id.len() != c[13].id.len());
    assert(c[2].id.len() != c[14].id.len());
    assert(c[2].id.len() != c[15].id.len());
    assert(c[2].id.len() != c[16].id.len());
    assert(c[2].id.len() != c[17].id.len());
    assert(c[3].id.len() != c[4].id.len());
    assert(c[3].id[0] != c[5].id[0]);
    assert(c[3].id[0] != c[6].id[0]);
    assert(c[3].id.len() != c[7].id.len());
    assert(c[3].id.len() != c[8].id.len());
    assert(c[3].id.len() != c[9].id.len());
    assert(c[3].id.len() != c[10].id.len());
    assert(c[3].id.len() != c[11].id.len());
    assert(c[3].id.len() != c[12].id.len());
    assert(c[3].id.len() != c[13].id.len());
    assert(c[3].id.len() != c[14].id.len());
    assert(c[3].id.len() != c[15].id.len());
    assert(c[3].id.len() != c[16].id.len());
    assert(c[3].id.len() != c[17].id.len());
    assert(c[4].id.len() != c[5].id.len());
    assert(c[4].id.len() != c[6].id.len());
    assert(c[4].id.len() != c[7].id.len());
    assert(c[4].id.len() != c[8].id.len());
    assert(c[4].id.len() != c[9].id.len());
    assert(c[4].id.len() != c[10].id.len());
    assert(c[4].id.len() != c[11].id.len());
    assert(c[4].id.len() != c[12].id.len());
    assert(c[4].id.len() != c[13].id.len());
    assert(c[4].id.len() != c[14].id.len());
    assert(c[4].id.len() != c[15].id.len());
    assert(c[4].id.len() != c[16].id.len());
    assert(c[4].id.len() != c[17].id.len());
    assert(c[5].id[0] != c[6].id[0]);
    assert(c[5].id.len() != c[7].id.len());
    assert(c[5].id.len() != c[8].id.len());
    assert(c[5].id.len() != c[9].id.len());
    assert(c[5].id.len() != c[10].id.len());
    assert(c[5].id.len() != c[11].id.len());
    assert(c[5].id.len() != c[12].id.len());
    assert(c[5].id.len() != c[13].id.len());
    assert(c[5].id.len() != c[14].id.len());
    assert(c[5].id.len() != c[15].id.len());
    assert(c[5].id.len() != c[16].id.len());
    assert(c[5].id.len() != c[17].id.len());
    assert(c[6].id.len() != c[7].id.len());
    assert(c[6].id.len() != c[8].id.len());
    assert(c[6].id.len() != c[9].id.len());
    assert(c[6].id.len() != c[10].id.len());
    assert(c[6].id.len() != c[11].id.len());
    assert(c[6].id.len() != c[12].id.len());
    assert(c[6].id.len() != c[13].id.len());
    assert(c[6].id.len() != c[14].id.len());
    assert(c[6].id.len() != c[15].id.len());
    assert(c[6].id.len() != c[16].id.len());
    assert(c[6].id.len() != c[17].id.len());
    assert(c[7].id.len() != c[8].id.len());
    assert(c[7].id.len() != c[9].id.len());
    assert(c[7].id.len() != c[10].id.len());
    assert(c[7].id.len() != c[11].id.len());
    assert(c[7].id.len() != c[12].id.len());
    assert(c[7].id.len() != c[13].id.len());
    assert(c[7].id.len() != c[14].id.len());
    assert(c[7].id.len() != c[15].id.len());
    assert(c[7].id.len() != c[16].id.len());
    assert(c[7].id.len() != c[17].id.len());
    assert(c[8].id[19] != c[9].id[19]);
    assert(c[8].id.len() != c[10].id.len());
    assert(c[8].id.len() != c[11].id.len());
    assert(c[8].id.len() != c[12].id.len());
    assert(c[8].id.len() != c[13].id.len());
    assert(c[8].id.len() != c[14].id.len());
    assert(c[8].id.len() != c[15].id.len());
    assert(c[8].id.len() != c[16].id.len());
    assert(c[8].id.len() != c[17].id.len());
    assert(c[9].id.len() != c[10].id.len());
    assert(c[9].id.len() != c[11].id.len());
    assert(c[9].id.len() != c[12].id.len());
    assert(c[9].id.len() != c[13].id.len());
    assert(c[9].id.len() != c[14].id.len());
    assert(c[9].id.len() != c[15].id.len());
    assert(c[9].id.len() != c[16].id.len());
    assert(c[9].id.len() != c[17].id.len());
    assert(c[10].id.len() != c[11].id.len());
    assert(c[10].id.len() != c[12].id.len());
    assert(c[10].id.len() != c[13].id.len());
    assert(c[10].id.len() != c[14].id.len());
    assert(c[10].id.len() != c[15].id.len());
    assert(c[10].id.len() != c[16].id.len());
    assert(c[10].id.len() != c[17].id.len());
    assert(c[11].id.len() != c[12].id.len());
    assert(c[11].id.len() != c[13].id.len());
    assert(c[11].id.len() != c[14].id.len());
    assert(c[11].id.len() != c[15].id.len());
    assert(c[11].id.len() != c[16].id.len());
    assert(c[11].id.len() != c[17].id.len());
    assert(c[12].id.len() != c[13].id.len());
    assert(c[12].id.len() != c[14].id.len());
    assert(c[12].id.len() != c[15].id.len());
    assert(c[12].id.len() != c[16].id.len());
    assert(c[12].id.len() != c[17].id.len());
    assert(c[13].id.len() != c[14].id.len());
    assert(c[13].id.len() != c[15].id.len());
    assert(c[13].id.len() != c[16].id.len());
    assert(c[13].id.len() != c[17].id.len());
    assert(c[14].id[0] != c[15].id[0]);
    assert(c[14].id.len() != c[16].id.len());
    assert(c[14].id.len() != c[17].id.len());
    assert(c[15].id.len() != c[16].id.len());
    assert(c[15].id.len() != c[17].id.len());
    assert(c[16].id.len() != c[17].id.len());
}

/// Every catalogue model is found by its own id.
pub proof fn law_every_model_found_by_id()
    ensures
        forall|i: int|
            0 <= i < catalogue().len() ==> find_model(catalogue(), #[trigger] catalogue()[i].id) == Some(
                catalogue()[i],
            ),
{
    law_catalogue_ids_distinct();
    let c = catalogue();
    assert forall|i: int| 0 <= i < c.len() implies find_model(c, #[trigger] c[i].id) == Some(c[i]) by {
        lemma_find_prefix_free(c, i);
    }
}

/// In a list with distinct ids, the model at position `i` is found by its id.
proof fn lemma_find_prefix_free(models: Seq<ModelInfoView>, i: int)
    requires
        0 <= i < models.len(),
        forall|a: int, b: int|
            0 <= a < models.len() && 0 <= b < models.len() && a != b ==> #[trigger] models[a].id
                != #[trigger] models[b].id,
    ensures
        find_model(models, models[i].id) == Some(models[i]),
    decreases i,
{
    if i > 0 {
        let rest = models.drop_first();
        assert(rest[i - 1] == models[i]);
        assert(models[0].id != models[i].id);
        assert forall|a: int, b: int|
            0 <= a < rest.len() && 0 <= b < rest.len() && a != b implies #[trigger] rest[a].id
                != #[trigger] rest[b].id by {
            assert(rest[a] == models[a + 1]);
            assert(rest[b] == models[b + 1]);
        }
        lemma_find_prefix_free(rest, i - 1);
    }
}

/// The models of an engine are exactly the catalogue models of that engine: each listed model
/// belongs to it, and each catalogue model of it is listed.
pub proof fn law_by_engine_is_exact(engine: EngineType)
    ensures
        forall|i: int|
            0 <= i < models_of_engine(catalogue(), engine).len() ==> (#[trigger] models_of_engine(
                catalogue(),
                engine,
            )[i]).engine_type == engine,
        forall|i: int|
            0 <= i < catalogue().len() && (#[trigger] catalogue()[i]).engine_type == engine
                ==> models_of_engine(catalogue(), engine).contains(catalogue()[i]),
{
    broadcast use vstd::seq_lib::group_filter_ensures;

    assert forall|i: int|
        0 <= i < models_of_engine(catalogue(), engine).len() implies (#[trigger] models_of_engine(
            catalogue(),
            engine,
        )[i]).engine_type == engine by {
        catalogue().lemma_filter_pred(of_engine(engine), i);
    }
    assert forall|i: int|
        0 <= i < catalogue().len() && (#[trigger] catalogue()[i]).engine_type == engine implies models_of_engine(
            catalogue(),
            engine,
        ).contains(catalogue()[i]) by {
        catalogue().lemma_filter_contains(of_engine(engine), i);
    }
}

/// The lengths of the lists of all engines, added up.
pub open spec fn engine_list_total(models: Seq<ModelInfoView>) -> nat {
    models_of_engine(models, EngineType::Whisper).len() + models_of_engine(
        models,
        EngineType::SenseVoice,
    ).len() + models_of_engine(models, EngineType::Parakeet).len() + models_of_engine(
        models,
        EngineType::Moonshine,
    ).len() + models_of_engine(models, EngineType::GigaAM).len() + models_of_engine(
        models,
        EngineType::Canary,
    ).len() + models_of_engine(models, EngineType::Cohere).len()
}

/// In any list, each model belongs to exactly one engine's list.
proof fn lemma_engine_lists_partition(models: Seq<ModelInfoView>)
    ensures
        engine_list_total(models) == models.len(),
    decreases models.len(),
{
    reveal_with_fuel(Seq::filter, 1);
    if models.len() > 0 {
        lemma_engine_lists_partition(models.drop_last());
    }
}

/// Each catalogue model belongs to exactly one engine: the lists of all engines together are as
/// long as the catalogue.
pub proof fn law_engines_partition_catalogue()
    ensures
        engine_list_total(catalogue()) == catalogue().len(),
{
    lemma_engine_lists_partition(catalogue());
}

/// The lists of all engines put together, as a multiset of models.
pub open spec fn engine_lists_multiset(models: Seq<ModelInfoView>) -> Multiset<ModelInfoView> {
    models_of_engine(models, EngineType::Whisper).to_multiset().add(
        models_of_engine(models, EngineType::SenseVoice).to_multiset(),
    ).add(models_of_engine(models, EngineType::Parakeet).to_multiset()).add(
        models_of_engine(models, EngineType::Moonshine).to_multiset(),
    ).add(models_of_engine(models, EngineType::GigaAM).to_multiset()).add(
        models_of_engine(models, EngineType::Canary).to_multiset(),
    ).add(models_of_engine(models, EngineType::Cohere).to_multiset())
}

/// In any list, the lists of all engines together hold each model as often as the list does.
proof fn lemma_engine_lists_permutation(models: Seq<ModelInfoView>)
    ensures
        engine_lists_multiset(models) == models.to_multiset(),
    decreases models.len(),
{
    broadcast use vstd::seq_lib::group_to_multiset_ensures;
    broadcast use vstd::multiset::group_multiset_axioms;

    reveal_with_fuel(Seq::filter, 1);
    if models.len() == 0 {
        assert(engine_lists_multiset(models) =~= models.to_multiset());
    } else {
        let front = models.drop_last();
        let x = models.last();
        lemma_engine_lists_permutation(front);
        assert(front.push(x) =~= models);
        assert(engine_lists_multiset(models) =~= engine_lists_multiset(front).insert(x));
    }
}

/// The lists of all engines together are a rearrangement of the catalogue: each catalogue
/// model is in exactly as many lists, counted with repetition, as it occurs in the catalogue.
pub proof fn law_engine_lists_permute_catalogue()
    ensures
        engine_lists_multiset(catalogue()) == catalogue().to_multiset(),
{
    lemma_engine_lists_permutation(catalogue());
}

/// Reading an engine's own lower-case name gives that engine back, so listing by an engine's
/// name ("whisper", "sensevoice", "parakeet", "moonshine", "gigaam", "canary", "cohere") lists
/// the catalogue models of that engine.
pub proof fn law_engine_name_round_trip(e: EngineType)
    ensures
        spec_engine_from_name(spec_engine_name(e)) == Some(e),
        e == EngineType::Whisper ==> spec_engine_name(e) == "whisper"@,
        e == EngineType::SenseVoice ==> spec_engine_name(e) == "sensevoice"@,
        e == EngineType::Parakeet ==> spec_engine_name(e) == "parakeet"@,
        e == EngineType::Moonshine ==> spec_engine_name(e) == "moonshine"@,
        e == EngineType::GigaAM ==> spec_engine_name(e) == "gigaam"@,
        e == EngineType::Canary ==> spec_engine_name(e) == "canary"@,
        e == EngineType::Cohere ==> spec_engine_name(e) == "cohere"@,
{
    reveal_strlit("whisper");
    reveal_strlit("sensevoice");
    reveal_strlit("parakeet");
    reveal_strlit("moonshine");
    reveal_strlit("gigaam");
    reveal_strlit("canary");
    reveal_strlit("cohere");
    assert("gigaam"@[0] != "canary"@[0]);
    assert("gigaam"@[0] != "cohere"@[0]);
    assert("canary"@[1] != "cohere"@[1]);
    assert("whisper"@.len() != "sensevoice"@.len());
    assert("whisper"@.len() != "parakeet"@.len());
    assert("whisper"@.len() != "moonshine"@.len());
    assert("whisper"@.len() != "gigaam"@.len());
    assert("sensevoice"@.len() != "parakeet"@.len());
    assert("sensevoice"@.len() != "moonshine"@.len());
    assert("sensevoice"@.len() != "gigaam"@.len());
    assert("parakeet"@.len() != "moonshine"@.len());
    assert("parakeet"@.len() != "gigaam"@.len());
    assert("moonshine"@.len() != "gigaam"@.len());
}

/// The models listed for an engine's own name are the catalogue models of that engine.
pub proof fn law_listing_by_engine_name(e: EngineType)
    ensures
        (match spec_engine_from_name(spec_engine_name(e)) {
            Some(f) => models_of_engine(catalogue(), f),
            None => Seq::empty(),
        }) == models_of_engine(catalogue(), e),
{
    law_engine_name_round_trip(e);
}

/// Where a model is downloaded from, given its file: a single-file Whisper model is the CDN
/// address of its file, any other model the CDN address of its file packed as ".tar.gz".
pub open spec fn cdn_address(m: ModelInfoView) -> Seq<char> {
    if m.engine_type == EngineType::Whisper {
        "https://blob.handy.computer/"@ + m.filename
    } else {
        "https://blob.handy.computer/"@ + m.filename + ".tar.gz"@
    }
}

/// Each catalogue model is downloaded from the CDN address of its own file: a Whisper model's
/// file is "ggml-<id>.bin", any other model's file is its id, and its URL is
/// "https://blob.handy.computer/" followed by the file (with ".tar.gz" for directory models).
#[verifier::rlimit(60)]
pub proof fn law_models_download_their_own_file()
    ensures
        forall|i: int|
            0 <= i < catalogue().len() ==> (#[trigger] catalogue()[i]).url == Some(
                cdn_address(catalogue()[i]),
            ),
        forall|i: int|
            0 <= i < catalogue().len() ==> (#[trigger] catalogue()[i]).filename == if catalogue()[i].engine_type
                == EngineType::Whisper {
                "ggml-"@ + catalogue()[i].id + ".bin"@
            } else {
                catalogue()[i].id
            },
{
    reveal_strlit(".bin");
    reveal_strlit(".tar.gz");
    reveal_strlit("base");
    reveal_strlit("breeze-asr");
    reveal_strlit("canary-180m-flash");
    reveal_strlit("canary-1b-v2");
    reveal_strlit("cohere-int8");
    reveal_strlit("ggml-");
    reveal_strlit("ggml-base.bin");
    reveal_strlit("ggml-breeze-asr.bin");
    reveal_strlit("ggml-large.bin");
    reveal_strlit("ggml-medium.bin");
    reveal_strlit("ggml-small.bin");
    reveal_strlit("ggml-tiny.bin");
    reveal_strlit("ggml-turbo.bin");
    reveal_strlit("gigaam-v3-e2e-ctc");
    reveal_strlit("https://blob.handy.computer/");
    reveal_strlit("https://blob.handy.computer/canary-180m-flash.tar.gz");
    reveal_strlit("https://blob.handy.computer/canary-1b-v2.tar.gz");
    reveal_strlit("https://blob.handy.computer/cohere-int8.tar.gz");
    reveal_strlit("https://blob.handy.computer/ggml-base.bin");
    reveal_strlit("https://blob.handy.computer/ggml-breeze-asr.bin");
    reveal_strlit("https://blob.handy.computer/ggml-large.bin");
    reveal_strlit("https://blob.handy.computer/ggml-medium.bin");
    reveal_strlit("https://blob.handy.computer/ggml-small.bin");
    reveal_strlit("https://blob.handy.computer/ggml-tiny.bin");
    reveal_strlit("https://blob.handy.computer/ggml-turbo.bin");
    reveal_strlit("https://blob.handy.computer/gigaam-v3-e2e-ctc.tar.gz");
    reveal_strlit("https://blob.handy.computer/moonshine-base.tar.gz");
    reveal_strlit("https://blob.handy.computer/moonshine-medium-streaming-en.tar.gz");
    reveal_strlit("https://blob.handy.computer/moonshine-small-streaming-en.tar.gz");
    reveal_strlit("https://blob.handy.computer/moonshine-tiny-streaming-en.tar.gz");
    reveal_strlit("https://blob.handy.computer/parakeet-tdt-0.6b-v2.tar.gz");
    reveal_strlit("https://blob.handy.computer/parakeet-tdt-0.6b-v3.tar.gz");
    reveal_strlit("https://blob.handy.computer/sense-voice-int8.tar.gz");
    reveal_strlit("large");
    reveal_strlit("medium");
    reveal_strlit("moonshine-base");
    reveal_strlit("moonshine-medium-streaming-en");
    reveal_strlit("moonshine-small-streaming-en");
    reveal_strlit("moonshine-tiny-streaming-en");
    reveal_strlit("parakeet-tdt-0.6b-v2");
    reveal_strlit("parakeet-tdt-0.6b-v3");
    reveal_strlit("sense-voice-int8");
    reveal_strlit("small");
    reveal_strlit("tiny");
    reveal_strlit("turbo");
    let c = catalogue();
    assert(c[0].filename =~= c[0].id);
    assert(c[0].url->0 =~= "https://blob.handy.computer/"@ + c[0].filename + ".tar.gz"@);
    assert(c[1].filename =~= "ggml-"@ + c[1].id + ".bin"@);
    assert(c[1].url->0 =~= "https://blob.handy.computer/"@ + c[1].filename);
    assert(c[2].filename =~= "ggml-"@ + c[2].id + ".bin"@);
    assert(c[2].url->0 =~= "https://blob.handy.computer/"@ + c[2].filename);
    assert(c[3].filename =~= "ggml-"@ + c[3].id + ".bin"@);
    assert(c[3].url->0 =~= "https://blob.handy.computer/"@ + c[3].filename);
    assert(c[4].filename =~= "ggml-"@ + c[4].id + ".bin"@);
    assert(c[4].url->0 =~= "https://blob.handy.computer/"@ + c[4].filename);
    assert(c[5].filename =~= "ggml-"@ + c[5].id + ".bin"@);
    assert(c[5].url->0 =~= "https://blob.handy.computer/"@ + c[5].filename);
    assert(c[6].filename =~= "ggml-"@ + c[6].id + ".bin"@);
    assert(c[6].url->0 =~= "https://blob.handy.computer/"@ + c[6].filename);
    assert(c[7].filename =~= "ggml-"@ + c[7].id + ".bin"@);
    assert(c[7].url->0 =~= "https://blob.handy.computer/"@ + c[7].filename);
    assert(c[8].filename =~= c[8].id);
    assert(c[8].url->0 =~= "https://blob.handy.computer/"@ + c[8].filename + ".tar.gz"@);
    assert(c[9].filename =~= c[9].id);
    assert(c[9].url->0 =~= "https://blob.handy.computer/"@ + c[9].filename + ".tar.gz"@);
    assert(c[10].filename =~= c[10].id);
    assert(c[10].url->0 =~= "https://blob.handy.computer/"@ + c[10].filename + ".tar.gz"@);
    assert(c[11].filename =~= c[11].id);
    assert(c[11].url->0 =~= "https://blob.handy.computer/"@ + c[11].filename + ".tar.gz"@);
    assert(c[12].filename =~= c[12].id);
    assert(c[12].url->0 =~= "https://blob.handy.computer/"@ + c[12].filename + ".tar.gz"@);
    assert(c[13].filename =~= c[13].id);
    assert(c[13].url->0 =~= "https://blob.handy.computer/"@ + c[13].filename + ".tar.gz"@);
    assert(c[14].filename =~= c[14].id);
    assert(c[14].url->0 =~= "https://blob.handy.computer/"@ + c[14].filename + ".tar.gz"@);
    assert(c[15].filename =~= c[15].id);
    assert(c[15].url->0 =~= "https://blob.handy.computer/"@ + c[15].filename + ".tar.gz"@);
    assert(c[16].filename =~= c[16].id);
    assert(c[16].url->0 =~= "https://blob.handy.computer/"@ + c[16].filename + ".tar.gz"@);
    assert(c[17].filename =~= c[17].id);
    assert(c[17].url->0 =~= "https://blob.handy.computer/"@ + c[17].filename + ".tar.gz"@);
}

/// The address of a model determines its id: two models, each downloaded from the CDN address
/// of its own file, that share an address share their id.
proof fn lemma_address_determines_id(a: ModelInfoView, b: ModelInfoView)
    requires
        a.filename == (if a.engine_type == EngineType::Whisper {
            "ggml-"@ + a.id + ".bin"@
        } else {
            a.id
        }),
        b.filename == (if b.engine_type == EngineType::Whisper {
            "ggml-"@ + b.id + ".bin"@
        } else {
            b.id
        }),
        cdn_address(a) == cdn_address(b),
    ensures
        a.id == b.id,
{
    reveal_strlit(".bin");
    reveal_strlit(".tar.gz");
    let p = "https://blob.handy.computer/"@;
    let g = "ggml-"@;
    let u = cdn_address(a);
    let wa = a.engine_type == EngineType::Whisper;
    let wb = b.engine_type == EngineType::Whisper;
    if wa && wb {
        assert(u =~= p + g + a.id + ".bin"@);
        assert(cdn_address(b) =~= p + g + b.id + ".bin"@);
        assert(a.id.len() == b.id.len());
        let s0: int = (p.len() + g.len()) as int;
        assert(u.subrange(s0, s0 + a.id.len() as int) =~= a.id);
        assert(cdn_address(b).subrange(s0, s0 + b.id.len() as int) =~= b.id);
    } else if !wa && !wb {
        assert(u =~= p + a.id + ".tar.gz"@);
        assert(cdn_address(b) =~= p + b.id + ".tar.gz"@);
        assert(a.id.len() == b.id.len());
        assert(u.subrange(p.len() as int, (p.len() + a.id.len()) as int) =~= a.id);
        assert(cdn_address(b).subrange(p.len() as int, (p.len() + b.id.len()) as int) =~= b.id);
    } else if wa {
        assert(u =~= p + g + a.id + ".bin"@);
        assert(cdn_address(b) =~= p + b.id + ".tar.gz"@);
        assert(u[u.len() - 1] == 'n');
        assert(cdn_address(b)[cdn_address(b).len() - 1] == 'z');
    } else {
        assert(u =~= p + a.id + ".tar.gz"@);
        assert(cdn_address(b) =~= p + g + b.id + ".bin"@);
        assert(u[u.len() - 1] == 'z');
        assert(cdn_address(b)[cdn_address(b).len() - 1] == 'n');
    }
}

/// No two catalogue models share a download URL.
pub proof fn law_download_urls_distinct()
    ensures
        forall|i: int, j: int|
            0 <= i < catalogue().len() && 0 <= j < catalogue().len() && i != j ==> #[trigger] catalogue()[i].url
                != #[trigger] catalogue()[j].url,
{
    law_models_download_their_own_file();
    law_catalogue_ids_distinct();
    assert forall|i: int, j: int|
        0 <= i < catalogue().len() && 0 <= j < catalogue().len() && i != j implies #[trigger] catalogue()[i].url
            != #[trigger] catalogue()[j].url by {
        if catalogue()[i].url == catalogue()[j].url {
            lemma_address_determines_id(catalogue()[i], catalogue()[j]);
        }
    }
}

/// Every catalogue model can be downloaded: it has a URL.
pub proof fn law_every_model_has_url()
    ensures
        forall|i: int| 0 <= i < catalogue().len() ==> (#[trigger] catalogue()[i]).url is Some,
{
}

} // verus!
