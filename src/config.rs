//! The application's configuration, its defaults, and where it is kept.
use crate::text::{joined, is_text};
use vstd::prelude::*;

verus! {

#[derive(Clone, Debug)]
pub struct Config {
    pub deepgram_api_key: String,
    pub hotkey: HotkeyConfig,
    pub audio: AudioConfig,
    pub transcription: TranscriptionConfig,
    pub ui: UiConfig,
}

#[derive(Clone, Debug)]
pub struct HotkeyConfig {
    pub modifiers: Vec<String>,
    pub key: String,
}

#[derive(Clone, Copy, Debug, PartialEq, Eq, Structural)]
pub struct AudioConfig {
    pub sample_rate: u32,
    pub channels: u16,
    pub buffer_size: usize,
    pub audio_chunk_ms: u32,
}

#[derive(Clone, Debug)]
pub struct TranscriptionConfig {
    pub use_interim_results: bool,
    pub model: String,
    pub language: String,
    pub smart_format: bool,
    pub punctuate: bool,
}

#[derive(Clone, Copy, Debug, PartialEq, Eq, Structural)]
pub struct UiConfig {
    pub show_tray_icon: bool,
}

#[derive(Clone, Debug)]
pub enum ConfigError {
    /// A configuration file was named but does not exist.
    NotFound(String),
    /// The platform has no per-user configuration directory.
    NoConfigDir,
    /// The configuration holds no API key.
    MissingApiKey,
}

pub fn default_audio_chunk_ms() -> (r: u32)
    ensures
        r == 25,
{
    25
}

pub fn default_use_interim_results() -> (r: bool)
    ensures
        r,
{
    true
}

pub fn default_model() -> (r: String)
    ensures
        r@ == "nova-3"@,
{
    String::from_str("nova-3")
}

pub fn default_language() -> (r: String)
    ensures
        r@ == "en"@,
{
    String::from_str("en")
}

pub fn default_smart_format() -> (r: bool)
    ensures
        r,
{
    true
}

pub fn default_punctuate() -> (r: bool)
    ensures
        r,
{
    true
}

pub fn default_show_tray_icon() -> (r: bool)
    ensures
        r,
{
    true
}

impl Default for UiConfig {
    fn default() -> (r: UiConfig)
        ensures
            r.show_tray_icon,
    {
        UiConfig { show_tray_icon: default_show_tray_icon() }
    }
}

pub open spec fn is_default_transcription(t: TranscriptionConfig) -> bool {
    &&& t.use_interim_results
    &&& t.model@ == "nova-3"@
    &&& t.language@ == "en"@
    &&& t.smart_format
    &&& t.punctuate
}

impl Default for TranscriptionConfig {
    fn default() -> (r: TranscriptionConfig)
        ensures
            is_default_transcription(r),
    {
        TranscriptionConfig {
            use_interim_results: default_use_interim_results(),
            model: default_model(),
            language: default_language(),
            smart_format: default_smart_format(),
            punctuate: default_punctuate(),
        }
    }
}

impl Default for Config {
    /// No API key, Super+V, 16 kHz mono in 25 ms chunks, and the default
    /// transcription and interface settings.
    fn default() -> (r: Config)
        ensures
            r.deepgram_api_key@.len() == 0,
            r.hotkey.modifiers@.len() == 1,
            r.hotkey.modifiers@[0]@ == "super"@,
            r.hotkey.key@ == "v"@,
            r.audio == (AudioConfig {
                sample_rate: 16000,
                channels: 1,
                buffer_size: 1024,
                audio_chunk_ms: 25,
            }),
            is_default_transcription(r.transcription),
            r.ui.show_tray_icon,
    {
        Config {
            deepgram_api_key: String::new(),
            hotkey: HotkeyConfig { modifiers: vec![String::from_str("super")], key: String::from_str("v") },
            audio: AudioConfig {
                sample_rate: 16000,
                channels: 1,
                buffer_size: 1024,
                audio_chunk_ms: default_audio_chunk_ms(),
            },
            transcription: TranscriptionConfig::default(),
            ui: UiConfig::default(),
        }
    }
}

/// What was found at a configuration path named by the user.
pub enum PathProbe {
    /// Nothing exists at this path.
    Missing(String),
    /// The path exists; this is its canonical, absolute form.
    Found(String),
}

/// Where the configuration file lies below the configuration directory.
pub open spec fn config_relative() -> Seq<char> {
    "gnome-voice-input/config.toml"@
}

/// `rel` below the directory `dir`, with one separator between them.
pub open spec fn path_below(dir: Seq<char>, rel: Seq<char>) -> Seq<char> {
    if dir.len() == 0 {
        rel
    } else if dir.last() == '/' {
        dir + rel
    } else {
        dir + seq!['/'] + rel
    }
}

/// Relies on `dirs::config_dir`: the per-user configuration directory, when
/// the platform has one. It depends on the environment, so nothing is said
/// of its value.
#[verifier::external_body]
fn user_config_dir() -> (r: Option<String>) {
    match dirs::config_dir() {
        Some(p) => Some(p.to_string_lossy().into_owned()),
        None => None,
    }
}

impl Config {
    /// The configuration file below `dir`, or `NoConfigDir` without one.
    pub fn config_file_in(dir: Option<String>) -> (r: Result<String, ConfigError>)
        ensures
            match dir {
                None => r matches Err(ConfigError::NoConfigDir),
                Some(d) => r is Ok && r->Ok_0@ == path_below(d@, config_relative()),
            },
    {
        match dir {
            None => Err(ConfigError::NoConfigDir),
            Some(d) => {
                let n = d.as_str().unicode_len();
                if n == 0 {
                    Ok(String::from_str("gnome-voice-input/config.toml"))
                } else if d.as_str().get_char(n - 1) == '/' {
                    Ok(joined(d.as_str(), "gnome-voice-input/config.toml"))
                } else {
                    let with_sep = joined(d.as_str(), "/");
                    proof {
                        reveal_strlit("/");
                    }
                    Ok(joined(with_sep.as_str(), "gnome-voice-input/config.toml"))
                }
            },
        }
    }

    /// The default configuration file of the current user.
    pub fn config_path() -> (r: Result<String, ConfigError>)
        ensures
            r is Err ==> r matches Err(ConfigError::NoConfigDir),
            r is Ok ==> exists|d: Seq<char>| r->Ok_0@ == path_below(d, config_relative()),
    {
        Config::config_file_in(user_config_dir())
    }

    /// The configuration file to use: the one named by the user, which must
    /// exist, in its canonical form, or else the default one.
    pub fn get_config_path(custom_path: Option<PathProbe>) -> (r: Result<String, ConfigError>)
        ensures
            match custom_path {
                Some(PathProbe::Missing(p)) => r is Err && (r->Err_0 matches ConfigError::NotFound(q)
                    && q@ == p@),
                Some(PathProbe::Found(c)) => r is Ok && r->Ok_0@ == c@,
                None => (r is Err ==> r matches Err(ConfigError::NoConfigDir)) && (r is Ok ==> exists|
                    d: Seq<char>,
                | r->Ok_0@ == path_below(d, config_relative())),
            },
    {
        match custom_path {
            Some(PathProbe::Missing(p)) => Err(ConfigError::NotFound(p)),
            Some(PathProbe::Found(c)) => Ok(c),
            None => Config::config_path(),
        }
    }

    /// A loaded configuration is usable only with an API key.
    pub fn validate(&self) -> (r: Result<(), ConfigError>)
        ensures
            self.deepgram_api_key@.len() == 0 <==> r is Err,
            r is Err ==> r matches Err(ConfigError::MissingApiKey),
    {
        if self.deepgram_api_key.as_str().is_empty() {
            Err(ConfigError::MissingApiKey)
        } else {
            Ok(())
        }
    }
}

} // verus!
