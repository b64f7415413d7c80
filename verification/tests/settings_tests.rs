use std::path::PathBuf;
use whispercrabs::config::{Config, EnvSettings, MouseHotkey, TranscriptionService, WhisperLanguage};
use whispercrabs::config;

fn empty_env() -> EnvSettings {
    EnvSettings {
        primary_transcription_service: None,
        api_base_url: None,
        api_key: None,
        groq_api_key: None,
        api_model: None,
        groq_stt_model: None,
        sound_notification: None,
        mouse_hotkey: None,
        consume_mouse_hotkey: None,
        auto_paste_after_transcribe: None,
        whisper_language: None,
        post_processing: None,
        post_processing_base_url: None,
        post_processing_api_key: None,
        post_processing_model: None,
        post_processing_style: None,
    }
}

fn load(env: EnvSettings, on_windows: bool) -> Config {
    let data = PathBuf::from("/tmp/whispercrabs");
    Config::from_settings(env, data.join("history.db"), data.join("models"), on_windows)
}

#[test]
fn config_api_base_url_is_valid_url() {
    let config = load(empty_env(), false);
    assert!(config.api_base_url.starts_with("http"));
}

#[test]
fn config_api_model_is_not_empty() {
    let config = load(empty_env(), false);
    assert!(!config.api_model.is_empty());
}

#[test]
fn config_post_processing_defaults_are_safe() {
    let config = load(empty_env(), false);
    assert!(!config.post_processing);
    assert_eq!(config.post_processing_base_url, config.api_base_url);
    assert_eq!(config.post_processing_api_key, config.api_key);
    assert_eq!(config.post_processing_model, "llama-3.3-70b-versatile");
    assert_eq!(config.post_processing_style, "structured");
}

#[test]
fn settings_defaults_without_environment() {
    let config = load(empty_env(), false);
    assert!(config.transcription_service == TranscriptionService::Api);
    assert_eq!(config.api_base_url, "https://api.groq.com/openai/v1");
    assert_eq!(config.api_key, None);
    assert_eq!(config.api_model, "whisper-large-v3-turbo");
    assert!(!config.sound_notification);
    assert_eq!(config.mouse_hotkey, MouseHotkey::XButton1);
    assert!(config.consume_mouse_hotkey);
    assert!(!config.auto_paste_after_transcribe);
    assert_eq!(config.whisper_language, WhisperLanguage::Ru);
    assert_eq!(config.db_path, PathBuf::from("/tmp/whispercrabs/history.db"));
    assert_eq!(config.models_dir, PathBuf::from("/tmp/whispercrabs/models"));
}

#[test]
fn settings_auto_paste_default_follows_platform() {
    let config = load(empty_env(), true);
    assert!(config.auto_paste_after_transcribe);
}

#[test]
fn settings_legacy_names_are_fallbacks() {
    let mut env = empty_env();
    env.groq_api_key = Some("gsk_old".to_string());
    env.groq_stt_model = Some("whisper-old".to_string());
    let config = load(env, false);
    assert_eq!(config.api_key, Some("gsk_old".to_string()));
    assert_eq!(config.api_model, "whisper-old");

    let mut env = empty_env();
    env.api_key = Some("new".to_string());
    env.groq_api_key = Some("old".to_string());
    env.api_model = Some("m-new".to_string());
    env.groq_stt_model = Some("m-old".to_string());
    let config = load(env, false);
    assert_eq!(config.api_key, Some("new".to_string()));
    assert_eq!(config.api_model, "m-new");
    assert_eq!(config.post_processing_api_key, Some("new".to_string()));
}

#[test]
fn settings_values_are_read() {
    let mut env = empty_env();
    env.primary_transcription_service = Some("LOCAL".to_string());
    env.api_base_url = Some("http://localhost:11434/v1".to_string());
    env.sound_notification = Some("TRUE".to_string());
    env.mouse_hotkey = Some("  Mouse5 ".to_string());
    env.consume_mouse_hotkey = Some("no".to_string());
    env.auto_paste_after_transcribe = Some(" Off ".to_string());
    env.whisper_language = Some("Kk".to_string());
    env.post_processing = Some("yes".to_string());
    env.post_processing_style = Some("plain".to_string());
    let config = load(env, true);
    assert!(config.transcription_service == TranscriptionService::Local);
    assert_eq!(config.api_base_url, "http://localhost:11434/v1");
    assert_eq!(config.post_processing_base_url, "http://localhost:11434/v1");
    assert!(config.sound_notification);
    assert_eq!(config.mouse_hotkey, MouseHotkey::XButton2);
    assert!(!config.consume_mouse_hotkey);
    assert!(!config.auto_paste_after_transcribe);
    assert_eq!(config.whisper_language, WhisperLanguage::Kk);
    assert!(config.post_processing);
    assert_eq!(config.post_processing_style, "plain");
}

#[test]
fn settings_unknown_values_fall_back() {
    let mut env = empty_env();
    env.primary_transcription_service = Some("groq".to_string());
    env.sound_notification = Some("yes".to_string());
    env.mouse_hotkey = Some("wheelup".to_string());
    env.whisper_language = Some("de".to_string());
    let config = load(env, false);
    assert!(config.transcription_service == TranscriptionService::Api);
    assert!(!config.sound_notification);
    assert_eq!(config.mouse_hotkey, MouseHotkey::XButton1);
    assert_eq!(config.whisper_language, WhisperLanguage::Ru);
}

#[test]
fn parse_bool_accepts_true_words_only() {
    assert!(config::parse_bool("TRUE"));
    assert!(config::parse_bool("Yes"));
    assert!(config::parse_bool("on"));
    assert!(config::parse_bool("1"));
    assert!(!config::parse_bool(" true"));
    assert!(!config::parse_bool("0"));
    assert!(!config::parse_bool(""));
}

#[test]
fn hotkey_names_round_trip() {
    for h in [MouseHotkey::Disabled, MouseHotkey::Middle, MouseHotkey::XButton1, MouseHotkey::XButton2] {
        assert_eq!(MouseHotkey::parse(h.as_str()), Some(h));
    }
    assert_eq!(MouseHotkey::parse(" MBUTTON\n"), Some(MouseHotkey::Middle));
    assert_eq!(MouseHotkey::parse("none"), Some(MouseHotkey::Disabled));
    assert_eq!(MouseHotkey::parse("button4"), Some(MouseHotkey::XButton1));
}

#[test]
fn language_codes_round_trip() {
    for l in [WhisperLanguage::Ru, WhisperLanguage::En, WhisperLanguage::Kk] {
        assert_eq!(WhisperLanguage::parse(l.whisper_code().unwrap()), Some(l));
    }
    assert_eq!(WhisperLanguage::parse(" AUTO "), Some(WhisperLanguage::Auto));
}

#[test]
fn presets_are_found_by_their_ids() {
    for p in config::api_presets() {
        assert_eq!(config::find_preset(p.id).unwrap().base_url, p.base_url);
    }
    for m in config::local_model_presets() {
        assert_eq!(config::find_local_model(m.id).unwrap().file_name, m.file_name);
    }
    for v in config::piper_voices() {
        assert_eq!(config::find_piper_voice(v.id).unwrap().label, v.label);
    }
    assert!(config::find_piper_voice(config::DEFAULT_PIPER_VOICE).is_some());
    assert!(config::find_piper_voice("Amy").is_none());
}

#[test]
fn piper_urls_and_files() {
    let amy = config::find_piper_voice("amy").unwrap();
    assert_eq!(
        amy.onnx_url(),
        "https://huggingface.co/rhasspy/piper-voices/resolve/main/en/en_US/amy/medium/en_US-amy-medium.onnx"
    );
    assert_eq!(
        amy.config_url(),
        "https://huggingface.co/rhasspy/piper-voices/resolve/main/en/en_US/amy/medium/en_US-amy-medium.onnx.json"
    );
    let cori = config::find_piper_voice("cori").unwrap();
    assert!(cori.onnx_url().ends_with("/en_GB/cori/medium/en_GB-cori-medium.onnx"));
    assert_eq!(config::piper_voice_model_file("amy"), "amy.onnx");
    assert_eq!(config::piper_voice_config_file("amy"), "amy.onnx.json");
    assert_eq!(
        config::model_url("ggml-base.bin"),
        "https://huggingface.co/ggerganov/whisper.cpp/resolve/main/ggml-base.bin"
    );
}
