use gnome_voice_input::handlers::{
    ConsoleTranscriptionHandler, HandlerOutput, KeyboardTranscriptionHandler, TranscriptionHandler,
};
use gnome_voice_input::transcript::{
    classify_transcript, handle_full_response, handle_simple_response, language_option, model_option,
    stream_options, LanguageOption, ModelOption, RecognizerEvent, TranscriptionResult,
};
use gnome_voice_input::config::TranscriptionConfig;

fn transcript(is_final: bool, text: &str) -> RecognizerEvent {
    RecognizerEvent::Transcript { is_final, first_alternative: Some(text.to_string()) }
}

fn text_of(r: Option<TranscriptionResult>) -> Option<(bool, String)> {
    r.map(|r| match r {
        TranscriptionResult::Interim(t) => (false, t),
        TranscriptionResult::Final(t) => (true, t),
    })
}

#[test]
fn final_transcript_is_trimmed() {
    assert_eq!(text_of(handle_full_response(transcript(true, "  hello world \n"), false)), Some((true, "hello world".to_string())));
}

#[test]
fn interim_only_when_wanted() {
    assert_eq!(text_of(handle_full_response(transcript(false, " hi "), true)), Some((false, "hi".to_string())));
    assert_eq!(text_of(handle_full_response(transcript(false, " hi "), false)), None);
    assert_eq!(text_of(handle_simple_response(transcript(false, "hey"))), Some((false, "hey".to_string())));
}

#[test]
fn blank_and_other_events_yield_nothing() {
    assert_eq!(text_of(handle_full_response(transcript(true, "   \t"), true)), None);
    assert_eq!(
        text_of(handle_full_response(RecognizerEvent::Transcript { is_final: true, first_alternative: None }, true)),
        None
    );
    assert_eq!(text_of(handle_full_response(RecognizerEvent::Other, true)), None);
    assert_eq!(text_of(classify_transcript(true, String::new(), true)), None);
}

#[test]
fn languages_and_models() {
    assert!(matches!(language_option("en"), LanguageOption::En));
    assert!(matches!(language_option("multi"), LanguageOption::Multi));
    assert!(matches!(language_option("sv"), LanguageOption::Sv));
    match language_option("tlh") {
        LanguageOption::Other(t) => assert_eq!(t, "tlh"),
        _ => panic!("unknown tags pass through"),
    }
    assert_eq!(model_option("nova-3"), ModelOption::Nova3);
    assert_eq!(model_option("nova-2"), ModelOption::Nova2);
    assert_eq!(model_option("base"), ModelOption::Nova2);
    assert_eq!(model_option("whisper"), ModelOption::Nova3);
    let o = stream_options(&TranscriptionConfig::default());
    assert!(o.punctuate && o.smart_format);
    assert!(matches!(o.language, LanguageOption::En));
    assert_eq!(o.model, ModelOption::Nova3);
}

fn keys(o: HandlerOutput) -> (usize, String) {
    match o {
        HandlerOutput::Keys(k) => (k.backspaces, k.text),
        _ => panic!("expected keys"),
    }
}

#[test]
fn keyboard_replaces_interim_text() {
    let mut h = KeyboardTranscriptionHandler::new(true);
    assert_eq!(keys(h.on_interim_result(&"héllo".to_string())), (0, "héllo".to_string()));
    assert_eq!(h.last_interim_length, 5);
    assert_eq!(keys(h.on_interim_result(&"hello there".to_string())), (5, "hello there".to_string()));
    assert_eq!(keys(h.on_interim_result(&"  ".to_string())), (0, String::new()));
    assert_eq!(keys(h.on_final_result(&"Hello there.".to_string())), (11, "Hello there. ".to_string()));
    assert_eq!(h.last_interim_length, 0);
}

#[test]
fn keyboard_without_interim_results() {
    let mut h = KeyboardTranscriptionHandler::new(false);
    assert_eq!(keys(h.on_interim_result(&"hello".to_string())), (0, String::new()));
    assert_eq!(keys(h.on_final_result(&"hello".to_string())), (0, "hello ".to_string()));
    assert_eq!(keys(h.on_final_result(&" ".to_string())), (0, String::new()));
}

#[test]
fn console_lines() {
    let mut h = ConsoleTranscriptionHandler::new();
    match h.on_interim_result(&"ab".to_string()) {
        HandlerOutput::Print(s) => assert_eq!(s, "\rInterim: ab"),
        _ => panic!("expected a line"),
    }
    match h.on_final_result(&"ab".to_string()) {
        HandlerOutput::Print(s) => assert_eq!(s, "\nFinal: ab\n"),
        _ => panic!("expected a line"),
    }
}
