//! What to do with each transcription result. A handler decides the output;
//! whoever drives it performs that output (typing, printing).
use crate::text::{blank, is_blank, joined};
use vstd::prelude::*;

verus! {

/// Keys to send: first `backspaces` presses of Backspace, then `text` typed.
#[derive(Clone, Debug)]
pub struct Keystrokes {
    pub backspaces: usize,
    pub text: String,
}

/// Output a handler asks for.
#[derive(Clone, Debug)]
pub enum HandlerOutput {
    Nothing,
    /// Simulated key presses.
    Keys(Keystrokes),
    /// Text for standard output, flushed at once.
    Print(String),
}

/// Receives the results of one transcription session in order.
pub trait TranscriptionHandler {
    /// A temporary result, which may still change.
    fn on_interim_result(&mut self, text: &String) -> HandlerOutput;

    /// A stable result.
    fn on_final_result(&mut self, text: &String) -> HandlerOutput;

    fn on_transcription_start(&mut self) -> HandlerOutput;

    fn on_transcription_end(&mut self) -> HandlerOutput;

    /// Handling a result failed with this message.
    fn on_transcription_error(&mut self, error: &String) -> HandlerOutput;
}

/// Types results where the keyboard focus is, replacing the shown interim
/// text as it changes.
pub struct KeyboardTranscriptionHandler {
    pub use_interim_results: bool,
    /// Characters of interim text typed and not yet erased.
    pub last_interim_length: usize,
}

impl KeyboardTranscriptionHandler {
    pub fn new(use_interim_results: bool) -> (r: KeyboardTranscriptionHandler)
        ensures
            r.use_interim_results == use_interim_results,
            r.last_interim_length == 0,
    {
        KeyboardTranscriptionHandler { use_interim_results, last_interim_length: 0 }
    }

    /// An interim result replaces the interim text typed before it, when
    /// interim results are wanted and the text is not blank.
    pub fn interim_keystrokes(&mut self, text: &String) -> (r: Keystrokes)
        ensures
            final(self).use_interim_results == old(self).use_interim_results,
            if old(self).use_interim_results && !blank(text@) {
                &&& r.backspaces == old(self).last_interim_length
                &&& r.text@ == text@
                &&& final(self).last_interim_length == text@.len()
            } else {
                &&& r.backspaces == 0
                &&& r.text@.len() == 0
                &&& final(self).last_interim_length == old(self).last_interim_length
            },
    {
        if self.use_interim_results && !is_blank(text.as_str()) {
            let erase = self.last_interim_length;
            self.last_interim_length = text.as_str().unicode_len();
            Keystrokes { backspaces: erase, text: text.clone() }
        } else {
            Keystrokes { backspaces: 0, text: String::new() }
        }
    }

    /// A final result erases the interim text, then is typed followed by a
    /// space; a blank one changes nothing.
    pub fn final_keystrokes(&mut self, text: &String) -> (r: Keystrokes)
        ensures
            final(self).use_interim_results == old(self).use_interim_results,
            if !blank(text@) {
                let erase = old(self).use_interim_results && old(self).last_interim_length > 0;
                &&& r.backspaces == (if erase {
                    old(self).last_interim_length
                } else {
                    0
                })
                &&& r.text@ == text@ + " "@
                &&& final(self).last_interim_length == (if erase {
                    0
                } else {
                    old(self).last_interim_length
                })
            } else {
                &&& r.backspaces == 0
                &&& r.text@.len() == 0
                &&& final(self).last_interim_length == old(self).last_interim_length
            },
    {
        if !is_blank(text.as_str()) {
            let mut erase: usize = 0;
            if self.use_interim_results && self.last_interim_length > 0 {
                erase = self.last_interim_length;
                self.last_interim_length = 0;
            }
            Keystrokes { backspaces: erase, text: joined(text.as_str(), " ") }
        } else {
            Keystrokes { backspaces: 0, text: String::new() }
        }
    }
}

impl TranscriptionHandler for KeyboardTranscriptionHandler {
    fn on_interim_result(&mut self, text: &String) -> HandlerOutput {
        HandlerOutput::Keys(self.interim_keystrokes(text))
    }

    fn on_final_result(&mut self, text: &String) -> HandlerOutput {
        HandlerOutput::Keys(self.final_keystrokes(text))
    }

    fn on_transcription_start(&mut self) -> HandlerOutput {
        HandlerOutput::Nothing
    }

    fn on_transcription_end(&mut self) -> HandlerOutput {
        HandlerOutput::Nothing
    }

    fn on_transcription_error(&mut self, error: &String) -> HandlerOutput {
        HandlerOutput::Nothing
    }
}

/// Prints results: interim ones over the same line, final ones on their own.
#[derive(Clone, Copy, Debug)]
pub struct ConsoleTranscriptionHandler;

impl Default for ConsoleTranscriptionHandler {
    fn default() -> (r: ConsoleTranscriptionHandler)
        ensures
            r == ConsoleTranscriptionHandler,
    {
        ConsoleTranscriptionHandler
    }
}

impl ConsoleTranscriptionHandler {
    pub fn new() -> (r: ConsoleTranscriptionHandler)
        ensures
            r == ConsoleTranscriptionHandler,
    {
        ConsoleTranscriptionHandler
    }

    pub fn interim_line(text: &String) -> (r: String)
        ensures
            r@ == "\rInterim: "@ + text@,
    {
        joined("\rInterim: ", text.as_str())
    }

    pub fn final_line(text: &String) -> (r: String)
        ensures
            r@ == "\nFinal: "@ + text@ + "\n"@,
    {
        let head = joined("\nFinal: ", text.as_str());
        joined(head.as_str(), "\n")
    }
}

impl TranscriptionHandler for ConsoleTranscriptionHandler {
    fn on_interim_result(&mut self, text: &String) -> HandlerOutput {
        HandlerOutput::Print(ConsoleTranscriptionHandler::interim_line(text))
    }

    fn on_final_result(&mut self, text: &String) -> HandlerOutput {
        HandlerOutput::Print(ConsoleTranscriptionHandler::final_line(text))
    }

    fn on_transcription_start(&mut self) -> HandlerOutput {
        HandlerOutput::Print(String::from_str("Transcription started. Speak into your microphone...\n\n"))
    }

    fn on_transcription_end(&mut self) -> HandlerOutput {
        HandlerOutput::Print(String::from_str("\nTranscription stopped.\n"))
    }

    fn on_transcription_error(&mut self, error: &String) -> HandlerOutput {
        HandlerOutput::Nothing
    }
}

} // verus!
