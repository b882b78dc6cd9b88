//! Adapting the recognizer's events to interim and final results, and the
//! options a recognition stream is opened with.
use crate::config::TranscriptionConfig;
use crate::text::{is_text, trim_text, trimmed};
use vstd::prelude::*;

verus! {

/// One result handed downstream. Interim results of an utterance precede
/// its final one.
#[derive(Clone, Debug)]
pub enum TranscriptionResult {
    Interim(String),
    Final(String),
}

/// A result as its finality and its text.
pub open spec fn result_view(r: TranscriptionResult) -> (bool, Seq<char>) {
    match r {
        TranscriptionResult::Interim(t) => (false, t@),
        TranscriptionResult::Final(t) => (true, t@),
    }
}

pub open spec fn option_view(r: Option<TranscriptionResult>) -> Option<(bool, Seq<char>)> {
    match r {
        Some(x) => Some(result_view(x)),
        None => None,
    }
}

/// An event of the recognition service, as far as this library reads it.
pub enum RecognizerEvent {
    /// A transcript, with the text of its first alternative if it has one.
    Transcript { is_final: bool, first_alternative: Option<String> },
    /// Any other event: utterance end, speech start, terminal, metadata.
    Other,
}

/// What a transcript with the already trimmed `text` becomes: nothing when
/// empty, a final result when final, an interim one only when interim
/// results are wanted.
pub open spec fn classified(is_final: bool, text: Seq<char>, use_interim_results: bool) -> Option<
    (bool, Seq<char>),
> {
    if text.len() == 0 {
        None
    } else if is_final {
        Some((true, text))
    } else if use_interim_results {
        Some((false, text))
    } else {
        None
    }
}

/// The result for one recognizer event.
pub open spec fn event_result(e: RecognizerEvent, use_interim_results: bool) -> Option<(bool, Seq<char>)> {
    match e {
        RecognizerEvent::Transcript { is_final, first_alternative: Some(t) } => classified(
            is_final,
            trimmed(t@),
            use_interim_results,
        ),
        _ => None,
    }
}

/// `classified` on a text that was already trimmed.
pub fn classify_transcript(is_final: bool, text: String, use_interim_results: bool) -> (r: Option<
    TranscriptionResult,
>)
    ensures
        option_view(r) == classified(is_final, text@, use_interim_results),
{
    if text.as_str().is_empty() {
        None
    } else if is_final {
        Some(TranscriptionResult::Final(text))
    } else if use_interim_results {
        Some(TranscriptionResult::Interim(text))
    } else {
        None
    }
}

/// The result, if any, that one recognizer event yields.
pub fn handle_full_response(response: RecognizerEvent, use_interim_results: bool) -> (r: Option<
    TranscriptionResult,
>)
    ensures
        option_view(r) == event_result(response, use_interim_results),
{
    match response {
        RecognizerEvent::Transcript { is_final, first_alternative } => match first_alternative {
            Some(t) => classify_transcript(is_final, trim_text(t.as_str()), use_interim_results),
            None => None,
        },
        RecognizerEvent::Other => None,
    }
}

/// As `handle_full_response`, with interim results wanted.
pub fn handle_simple_response(response: RecognizerEvent) -> (r: Option<TranscriptionResult>)
    ensures
        option_view(r) == event_result(response, true),
{
    handle_full_response(response, true)
}

/// Languages the recognizer is asked for by name.
#[derive(Clone, Debug)]
pub enum LanguageOption {
    Multi,
    En,
    Es,
    Fr,
    De,
    It,
    Pt,
    Nl,
    Ja,
    Ko,
    Zh,
    Ru,
    Uk,
    Sv,
    /// Any other tag, passed through as written.
    Other(String),
}

#[derive(Clone, Copy, Debug, PartialEq, Eq, Structural)]
pub enum ModelOption {
    Nova3,
    Nova2,
}

/// Options a recognition stream is opened with.
#[derive(Clone, Debug)]
pub struct StreamOptions {
    pub punctuate: bool,
    pub smart_format: bool,
    pub language: LanguageOption,
    pub model: ModelOption,
}

/// The tag a language option stands for.
pub open spec fn language_tag(l: LanguageOption) -> Seq<char> {
    match l {
        LanguageOption::Multi => "multi"@,
        LanguageOption::En => "en"@,
        LanguageOption::Es => "es"@,
        LanguageOption::Fr => "fr"@,
        LanguageOption::De => "de"@,
        LanguageOption::It => "it"@,
        LanguageOption::Pt => "pt"@,
        LanguageOption::Nl => "nl"@,
        LanguageOption::Ja => "ja"@,
        LanguageOption::Ko => "ko"@,
        LanguageOption::Zh => "zh"@,
        LanguageOption::Ru => "ru"@,
        LanguageOption::Uk => "uk"@,
        LanguageOption::Sv => "sv"@,
        LanguageOption::Other(s) => s@,
    }
}

pub open spec fn is_named_language(s: Seq<char>) -> bool {
    s == "multi"@ || s == "en"@ || s == "es"@ || s == "fr"@ || s == "de"@ || s == "it"@ || s == "pt"@
        || s == "nl"@ || s == "ja"@ || s == "ko"@ || s == "zh"@ || s == "ru"@ || s == "uk"@ || s
        == "sv"@
}

/// The language option for a configured tag: the named option when there is
/// one, else the tag itself.
pub fn language_option(tag: &str) -> (r: LanguageOption)
    ensures
        language_tag(r) == tag@,
        r is Other <==> !is_named_language(tag@),
{
    if is_text(tag, "multi") {
        LanguageOption::Multi
    } else if is_text(tag, "en") {
        LanguageOption::En
    } else if is_text(tag, "es") {
        LanguageOption::Es
    } else if is_text(tag, "fr") {
        LanguageOption::Fr
    } else if is_text(tag, "de") {
        LanguageOption::De
    } else if is_text(tag, "it") {
        LanguageOption::It
    } else if is_text(tag, "pt") {
        LanguageOption::Pt
    } else if is_text(tag, "nl") {
        LanguageOption::Nl
    } else if is_text(tag, "ja") {
        LanguageOption::Ja
    } else if is_text(tag, "ko") {
        LanguageOption::Ko
    } else if is_text(tag, "zh") {
        LanguageOption::Zh
    } else if is_text(tag, "ru") {
        LanguageOption::Ru
    } else if is_text(tag, "uk") {
        LanguageOption::Uk
    } else if is_text(tag, "sv") {
        LanguageOption::Sv
    } else {
        LanguageOption::Other(String::from_str(tag))
    }
}

/// The model for a configured name: "nova-3" and any unknown name give
/// Nova-3; "nova-2", "nova", "enhanced" and "base" give Nova-2.
pub open spec fn model_for(name: Seq<char>) -> ModelOption {
    if name == "nova-2"@ || name == "nova"@ || name == "enhanced"@ || name == "base"@ {
        ModelOption::Nova2
    } else {
        ModelOption::Nova3
    }
}

pub fn model_option(name: &str) -> (r: ModelOption)
    ensures
        r == model_for(name@),
{
    if is_text(name, "nova-2") || is_text(name, "nova") || is_text(name, "enhanced") || is_text(
        name,
        "base",
    ) {
        ModelOption::Nova2
    } else {
        ModelOption::Nova3
    }
}

/// Whether a configured model name is one of those known.
pub fn is_known_model(name: &str) -> (r: bool)
    ensures
        r == (name@ == "nova-3"@ || model_for(name@) == ModelOption::Nova2),
{
    is_text(name, "nova-3") || model_option(name) == ModelOption::Nova2
}

/// The options for a stream under `config`.
pub fn stream_options(config: &TranscriptionConfig) -> (r: StreamOptions)
    ensures
        r.punctuate == config.punctuate,
        r.smart_format == config.smart_format,
        language_tag(r.language) == config.language@,
        r.language is Other <==> !is_named_language(config.language@),
        r.model == model_for(config.model@),
{
    StreamOptions {
        punctuate: config.punctuate,
        smart_format: config.smart_format,
        language: language_option(config.language.as_str()),
        model: model_option(config.model.as_str()),
    }
}

} // verus!
