use gnome_voice_input::config::{
    default_audio_chunk_ms, default_language, default_model, default_punctuate, default_show_tray_icon,
    default_smart_format, default_use_interim_results, Config, ConfigError, PathProbe, TranscriptionConfig,
    UiConfig,
};

#[test]
fn defaults() {
    assert_eq!(default_audio_chunk_ms(), 25);
    assert!(default_use_interim_results());
    assert_eq!(default_model(), "nova-3");
    assert_eq!(default_language(), "en");
    assert!(default_smart_format());
    assert!(default_punctuate());
    assert!(default_show_tray_icon());
    assert!(UiConfig::default().show_tray_icon);
    let t = TranscriptionConfig::default();
    assert!(t.use_interim_results && t.smart_format && t.punctuate);
    assert_eq!(t.model, "nova-3");
}

#[test]
fn default_config() {
    let c = Config::default();
    assert_eq!(c.deepgram_api_key, "");
    assert_eq!(c.hotkey.modifiers, vec!["super".to_string()]);
    assert_eq!(c.hotkey.key, "v");
    assert_eq!(c.audio.sample_rate, 16000);
    assert_eq!(c.audio.channels, 1);
    assert_eq!(c.audio.buffer_size, 1024);
    assert_eq!(c.audio.audio_chunk_ms, 25);
    assert_eq!(c.transcription.language, "en");
}

#[test]
fn missing_key_is_rejected() {
    let mut c = Config::default();
    assert!(matches!(c.validate(), Err(ConfigError::MissingApiKey)));
    c.deepgram_api_key = "SECRET-REDACTED".to_string();
    assert!(c.validate().is_ok());
}

#[test]
fn named_path_must_exist() {
    match Config::get_config_path(Some(PathProbe::Missing("/nope/config.toml".to_string()))) {
        Err(ConfigError::NotFound(p)) => assert_eq!(p, "/nope/config.toml"),
        _ => panic!("a missing file must be reported"),
    }
    let found = Config::get_config_path(Some(PathProbe::Found("/etc/voice.toml".to_string()))).unwrap();
    assert_eq!(found, "/etc/voice.toml");
}

#[test]
fn file_below_config_dir() {
    assert_eq!(
        Config::config_file_in(Some("/home/u/.config".to_string())).unwrap(),
        "/home/u/.config/gnome-voice-input/config.toml"
    );
    assert_eq!(
        Config::config_file_in(Some("/home/u/.config/".to_string())).unwrap(),
        "/home/u/.config/gnome-voice-input/config.toml"
    );
    assert!(matches!(Config::config_file_in(None), Err(ConfigError::NoConfigDir)));
}

#[test]
fn default_path_ends_with_app_file() {
    match Config::get_config_path(None) {
        Ok(p) => assert!(p.ends_with("gnome-voice-input/config.toml")),
        Err(e) => assert!(matches!(e, ConfigError::NoConfigDir)),
    }
}
