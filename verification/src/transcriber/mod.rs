//! What is handed to a speech engine: the engine named on the command line, the language hint
//! in the form the engines accept, and the per-engine request parameters.

pub mod moonshine;

use crate::text::{ascii_lower, concat, is_ascii_text, lowercase, same_text, to_lowercase};
use vstd::prelude::*;

verus! {

/// The engines that can be named in configuration.
#[derive(PartialEq, Eq, Structural, Clone, Copy, Debug)]
pub enum EngineType {
    Whisper,
    SenseVoice,
}

/// The engine whose lower-case name is `l`; `None` for an unknown name.
pub open spec fn engine_of_lower(l: Seq<char>) -> Option<EngineType> {
    if l == "whisper"@ {
        Some(EngineType::Whisper)
    } else if l == "sensevoice"@ {
        Some(EngineType::SenseVoice)
    } else {
        None
    }
}

/// The engine an engine name stands for, whatever its case; `None` for an unknown name.
pub open spec fn engine_named(name: Seq<char>) -> Option<EngineType> {
    engine_of_lower(lowercase(name))
}

impl EngineType {
    /// The engine an engine name stands for, compared without regard to case; an unknown name
    /// is refused with "Unknown engine: <name>". An ASCII name stands for the engine its
    /// small-letter form names, so "Whisper" and "WHISPER" name the same engine as "whisper".
    pub fn try_from(s: &str) -> (r: Result<EngineType, String>)
        ensures
            r matches Ok(t) ==> engine_named(s@) == Some(t),
            r matches Err(e) ==> engine_named(s@) is None && e@ == "Unknown engine: "@ + s@,
            is_ascii_text(s@) ==> engine_named(s@) == engine_of_lower(ascii_lower(s@)),
    {
        let l = to_lowercase(s);
        if same_text(l.as_str(), "whisper") {
            Ok(EngineType::Whisper)
        } else if same_text(l.as_str(), "sensevoice") {
            Ok(EngineType::SenseVoice)
        } else {
            Err(concat("Unknown engine: ", s))
        }
    }
}

/// A language code as the engines take it: the two written forms of Chinese become "zh".
pub open spec fn spec_normalize_language(code: Seq<char>) -> Seq<char> {
    if code == "zh-Hans"@ || code == "zh-Hant"@ {
        "zh"@
    } else {
        code
    }
}

/// A language code as the engines take it: "zh-Hans" and "zh-Hant" become "zh", any other code
/// is kept.
pub fn normalize_language(code: &str) -> (r: String)
    ensures
        r@ == spec_normalize_language(code@),
{
    if same_text(code, "zh-Hans") || same_text(code, "zh-Hant") {
        String::from_str("zh")
    } else {
        String::from_str(code)
    }
}

/// Normalizing a language code changes only "zh-Hans" and "zh-Hant", both into "zh"; every
/// other code is kept as it is.
pub proof fn law_normalize_changes_only_chinese(code: Seq<char>)
    ensures
        code != "zh-Hans"@ && code != "zh-Hant"@ ==> spec_normalize_language(code) == code,
        code == "zh-Hans"@ || code == "zh-Hant"@ ==> spec_normalize_language(code) == "zh"@,
{
}

/// Normalizing a language code twice changes nothing more than normalizing it once.
pub proof fn law_normalize_language_idempotent(code: Seq<char>)
    ensures
        spec_normalize_language(spec_normalize_language(code)) == spec_normalize_language(code),
{
    reveal_strlit("zh");
    reveal_strlit("zh-Hans");
    reveal_strlit("zh-Hant");
}

/// The parameters of one call of a speech engine.
#[derive(Debug)]
pub struct EngineRequest {
    /// Language hint passed to the engine.
    pub language: Option<String>,
    /// Whether the engine is asked to translate into English.
    pub translate: bool,
    /// Target language, for the engine that translates by target.
    pub target_language: Option<String>,
    /// Language reported with the result, for engines that know theirs.
    pub reported_language: Option<String>,
}

/// The parameters as the contracts see them.
pub struct EngineRequestView {
    pub language: Option<Seq<char>>,
    pub translate: bool,
    pub target_language: Option<Seq<char>>,
    pub reported_language: Option<Seq<char>>,
}

/// The view of an optional text.
pub open spec fn opt_view(o: Option<String>) -> Option<Seq<char>> {
    match o {
        Some(s) => Some(s@),
        None => None,
    }
}

impl View for EngineRequest {
    type V = EngineRequestView;

    open spec fn view(&self) -> EngineRequestView {
        EngineRequestView {
            language: opt_view(self.language),
            translate: self.translate,
            target_language: opt_view(self.target_language),
            reported_language: opt_view(self.reported_language),
        }
    }
}

/// An optional language hint, normalized.
pub open spec fn spec_normalize_hint(hint: Option<Seq<char>>) -> Option<Seq<char>> {
    match hint {
        Some(l) => Some(spec_normalize_language(l)),
        None => None,
    }
}

/// An optional language hint, normalized.
pub fn normalize_hint(hint: Option<&str>) -> (r: Option<String>)
    ensures
        opt_view(r) == spec_normalize_hint(
            match hint {
                Some(h) => Some(h@),
                None => None,
            },
        ),
{
    match hint {
        Some(h) => Some(normalize_language(h)),
        None => None,
    }
}

} // verus!
