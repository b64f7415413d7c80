use std::path::PathBuf;
use whispercrabs::config::{self, Config, EnvSettings, TranscriptionService};
use whispercrabs::session::{
    self, ModeChoice, PresetSwitch, StartChecks, StartRefusal, State, StoredSettings, ToggleAction,
    ToggleSource, TranscriptionOutcome,
};

fn ready() -> StartChecks {
    StartChecks {
        downloading: false,
        local_model_loaded: true,
        has_api_key: true,
        microphone_available: true,
    }
}

fn config_with_key(key: Option<&str>, service: Option<&str>) -> Config {
    let env = EnvSettings {
        primary_transcription_service: service.map(|s| s.to_string()),
        api_base_url: None,
        api_key: key.map(|k| k.to_string()),
        groq_api_key: None,
        api_model: None,
        groq_stt_model: None,
        sound_notification: None,
        mouse_hotkey: None,
        consume_mouse_hotkey: None,
        auto_paste_after_transcribe: None,
        whisper_language: None,
        post_processing: None,
        post_processing_base_url: None,
        post_processing_api_key: None,
        post_processing_model: None,
        post_processing_style: None,
    };
    Config::from_settings(env, PathBuf::from("db"), PathBuf::from("models"), false)
}

fn stored(mode: Option<&str>) -> StoredSettings {
    StoredSettings {
        transcription_mode: mode.map(|m| m.to_string()),
        custom_url: None,
        custom_key: None,
        custom_model: None,
        preset_key: None,
    }
}

#[test]
fn click_starts_and_stops_recording() {
    let a = session::toggle_action(ToggleSource::Button, State::Idle, TranscriptionService::Api, "groq", ready());
    assert_eq!(a, ToggleAction::StartRecording);
    assert_eq!(session::state_after(State::Idle, a, true), State::Recording);
    assert_eq!(session::state_after(State::Idle, a, false), State::Idle);
    let b = session::toggle_action(ToggleSource::Button, State::Recording, TranscriptionService::Api, "groq", ready());
    assert_eq!(b, ToggleAction::StopAndTranscribe);
    assert_eq!(session::state_after(State::Recording, b, true), State::Processing);
    assert_eq!(session::state_after(State::Recording, b, false), State::Idle);
}

#[test]
fn start_guards_in_order() {
    let mut c = ready();
    c.downloading = true;
    c.microphone_available = false;
    assert_eq!(
        session::toggle_action(ToggleSource::Button, State::Idle, TranscriptionService::Local, "local-tiny", c),
        ToggleAction::Refuse(StartRefusal::Downloading)
    );
    let mut c = ready();
    c.local_model_loaded = false;
    assert_eq!(
        session::toggle_action(ToggleSource::Button, State::Idle, TranscriptionService::Local, "local-tiny", c),
        ToggleAction::Refuse(StartRefusal::NoLocalModel)
    );
    let mut c = ready();
    c.has_api_key = false;
    assert_eq!(
        session::toggle_action(ToggleSource::Button, State::Idle, TranscriptionService::Api, "groq", c),
        ToggleAction::Refuse(StartRefusal::NoApiKey)
    );
    assert_eq!(
        session::toggle_action(ToggleSource::Button, State::Idle, TranscriptionService::Api, "custom", c),
        ToggleAction::StartRecording
    );
    assert_eq!(
        session::toggle_action(ToggleSource::Button, State::Idle, TranscriptionService::Api, "ollama", c),
        ToggleAction::StartRecording
    );
    let mut c = ready();
    c.microphone_available = false;
    assert_eq!(
        session::toggle_action(ToggleSource::MouseHotkey, State::Idle, TranscriptionService::Api, "groq", c),
        ToggleAction::Refuse(StartRefusal::NoMicrophone)
    );
    assert_eq!(StartRefusal::NoApiKey.message(), "No API key set");
    assert_eq!(StartRefusal::Downloading.message(), "Downloading model...");
}

#[test]
fn busy_states_and_speaking() {
    for s in [State::Processing, State::Synthesizing] {
        assert_eq!(session::toggle_action(ToggleSource::Button, s, TranscriptionService::Api, "groq", ready()), ToggleAction::Ignore);
    }
    assert_eq!(
        session::toggle_action(ToggleSource::Button, State::Speaking, TranscriptionService::Api, "groq", ready()),
        ToggleAction::StopSpeaking
    );
    assert_eq!(
        session::toggle_action(ToggleSource::MouseHotkey, State::Speaking, TranscriptionService::Api, "groq", ready()),
        ToggleAction::Ignore
    );
}

#[test]
fn completion_plans() {
    let p = session::completion_plan(TranscriptionOutcome::Text, true, true, true, true);
    assert!(p.keep_text && p.paste && !p.report_missing_target && p.play_notification && p.mark_done);
    assert_eq!(p.status.unwrap().message(), "Copied!");
    assert_eq!(p.hide_after_secs, 2);
    let p = session::completion_plan(TranscriptionOutcome::Text, true, true, false, false);
    assert!(!p.paste && p.report_missing_target && !p.play_notification);
    let p = session::completion_plan(TranscriptionOutcome::Text, false, true, true, true);
    assert!(p.keep_text && !p.paste && !p.mark_done);
    assert_eq!(p.status.unwrap().message(), "Error!");
    assert_eq!(p.hide_after_secs, 3);
    let p = session::completion_plan(TranscriptionOutcome::Failed, true, true, true, true);
    assert!(!p.keep_text && !p.paste);
    let p = session::completion_plan(TranscriptionOutcome::Lost, true, true, true, true);
    assert!(p.status.is_none());
}

#[test]
fn initial_provider_from_environment() {
    let cfg = config_with_key(Some("k"), None);
    let p = session::resolve_initial_provider(&stored(None), &cfg);
    assert!(p.service == TranscriptionService::Api);
    assert_eq!(p.provider, "groq");
    assert_eq!(p.api_key, Some("k".to_string()));
    let cfg = config_with_key(None, Some("local"));
    let p = session::resolve_initial_provider(&stored(None), &cfg);
    assert!(p.service == TranscriptionService::Local);
    assert_eq!(p.provider, "local-tiny");
    let p = session::resolve_initial_provider(&stored(Some("local")), &config_with_key(None, None));
    assert!(p.service == TranscriptionService::Local);
    assert_eq!(p.provider, "local-tiny");
    let p = session::resolve_initial_provider(&stored(Some("mystery")), &config_with_key(None, Some("local")));
    assert!(p.service == TranscriptionService::Local);
    assert_eq!(p.provider, "groq");
}

#[test]
fn preset_choice_survives_restart() {
    let cfg = config_with_key(Some("env-key"), None);
    let openrouter = config::find_preset("openrouter").unwrap();
    let mut s = stored(Some("openrouter"));
    s.preset_key = Some("saved".to_string());
    let key = session::preset_key(&openrouter, &s.preset_key, &cfg.api_key);
    let applied = session::apply_preset(&openrouter, key);
    let restored = session::resolve_initial_provider(&s, &cfg);
    assert_eq!(restored.provider, applied.provider);
    assert_eq!(restored.api_base_url, "https://openrouter.ai/api/v1");
    assert_eq!(restored.api_model, "openai/whisper-1");
    assert_eq!(restored.api_key, Some("saved".to_string()));
    assert_eq!(applied.api_key, restored.api_key);

    let ollama = config::find_preset("ollama").unwrap();
    let restored = session::resolve_initial_provider(&stored(Some("ollama")), &cfg);
    assert_eq!(restored.api_key, None);
    assert_eq!(restored.api_base_url, ollama.base_url);
}

#[test]
fn local_and_custom_choices_survive_restart() {
    let cfg = config_with_key(None, None);
    let r = session::resolve_initial_provider(&stored(Some("local-small")), &cfg);
    assert!(r.service == TranscriptionService::Local);
    assert_eq!(r.provider, "local-small");
    let mut s = stored(Some("custom"));
    s.custom_url = Some("http://host/v1".to_string());
    s.custom_key = Some("ck".to_string());
    s.custom_model = Some("m".to_string());
    let r = session::resolve_initial_provider(&s, &cfg);
    assert_eq!(r.provider, "custom");
    assert_eq!(r.api_base_url, "http://host/v1");
    assert_eq!(r.api_key, Some("ck".to_string()));
    assert_eq!(r.api_model, "m");
}

#[test]
fn custom_dialog_and_api_config() {
    assert!(session::custom_from_dialog("".into(), "k".into(), "m".into()).is_none());
    assert!(session::custom_from_dialog("u".into(), "k".into(), "".into()).is_none());
    let p = session::custom_from_dialog("u".into(), "".into(), "m".into()).unwrap();
    assert_eq!(p.api_key, None);
    assert_eq!(p.provider, "custom");
    let p = session::custom_from_dialog("u".into(), "k".into(), "m".into()).unwrap();
    assert_eq!(p.api_key, Some("k".to_string()));
    assert!(session::api_config_size_ok(4096));
    assert!(!session::api_config_size_ok(4097));
    assert_eq!(session::api_key_setting_name("groq"), "api_key_groq");
}

#[test]
fn preset_switch_asks_for_missing_key() {
    let groq = config::find_preset("groq").unwrap();
    assert!(matches!(session::preset_switch(&groq, &None, &None), PresetSwitch::AskForKey));
    match session::preset_switch(&groq, &None, &Some("env".to_string())) {
        PresetSwitch::Apply(k) => assert_eq!(k, Some("env".to_string())),
        PresetSwitch::AskForKey => panic!("key was known"),
    }
    let lm = config::find_preset("lmstudio").unwrap();
    match session::preset_switch(&lm, &Some("x".to_string()), &None) {
        PresetSwitch::Apply(k) => assert_eq!(k, None),
        PresetSwitch::AskForKey => panic!("no key needed"),
    }
}

#[test]
fn menu_choices() {
    assert!(matches!(session::mode_choice(State::Idle, false, "local-base", "groq"), ModeChoice::Local(m) if m.id == "local-base"));
    assert!(matches!(session::mode_choice(State::Idle, false, "custom", "groq"), ModeChoice::Custom));
    assert!(matches!(session::mode_choice(State::Idle, false, "ollama", "groq"), ModeChoice::Preset(p) if p.id == "ollama"));
    assert!(matches!(session::mode_choice(State::Idle, false, "groq", "groq"), ModeChoice::Ignore));
    assert!(matches!(session::mode_choice(State::Recording, false, "ollama", "groq"), ModeChoice::Ignore));
    assert!(matches!(session::mode_choice(State::Idle, true, "ollama", "groq"), ModeChoice::Ignore));
    assert!(matches!(session::mode_choice(State::Idle, false, "bogus", "groq"), ModeChoice::Unknown));
}

#[test]
fn local_switch_and_fallback() {
    let cfg = config_with_key(Some("k"), None);
    let current = session::resolve_initial_provider(&stored(Some("local-tiny")), &cfg);
    let base = config::find_local_model("local-base").unwrap();
    let (next, old) = session::switch_to_local(&current, &base);
    assert_eq!(next.provider, "local-base");
    assert!(next.service == TranscriptionService::Local);
    assert_eq!(old.unwrap().file_name, "ggml-tiny.bin");
    let tiny = config::find_local_model("local-tiny").unwrap();
    let (_, old) = session::switch_to_local(&current, &tiny);
    assert!(old.is_none());
    let api = session::resolve_initial_provider(&stored(None), &cfg);
    let (_, old) = session::switch_to_local(&api, &base);
    assert!(old.is_none());
    let back = session::fallback_to_default_api(&next);
    assert!(back.service == TranscriptionService::Api);
    assert_eq!(back.provider, "groq");
    assert_eq!(back.api_base_url, "https://api.groq.com/openai/v1");
    assert_eq!(back.api_model, "whisper-large-v3-turbo");
    assert_eq!(back.api_key, Some("k".to_string()));
}

#[test]
fn custom_endpoint_needs_no_key() {
    assert!(!session::provider_needs_key("custom"));
    assert!(session::provider_needs_key("groq"));
    assert!(!session::provider_needs_key("ollama"));
    let mut c = ready();
    c.has_api_key = false;
    let action = session::toggle_action(ToggleSource::Button, State::Idle, TranscriptionService::Api, "custom", c);
    assert_eq!(action, ToggleAction::StartRecording);
    assert_eq!(session::state_after(State::Idle, action, true), State::Recording);
}

#[test]
fn api_config_request_checks_size_then_scheme() {
    let ok = session::api_config_request(
        100,
        "http://localhost:11434/v1".to_string(),
        "whisper".to_string(),
        None,
    )
    .unwrap();
    assert_eq!(ok.provider, "custom");
    assert_eq!(ok.api_base_url, "http://localhost:11434/v1");
    assert_eq!(ok.api_model, "whisper");
    assert_eq!(ok.api_key, None);
    let with_key = session::api_config_request(
        session::MAX_API_CONFIG_LEN,
        "https://api.example.com/v1".to_string(),
        "m".to_string(),
        Some("k".to_string()),
    )
    .unwrap();
    assert_eq!(with_key.api_key, Some("k".to_string()));
    assert_eq!(
        session::api_config_request(4097, "https://a".to_string(), "m".to_string(), None).err(),
        Some(session::ApiConfigRefusal::TooLarge)
    );
    assert_eq!(
        session::api_config_request(4097, "ftp://a".to_string(), "m".to_string(), None).err(),
        Some(session::ApiConfigRefusal::TooLarge)
    );
    assert_eq!(
        session::api_config_request(10, "file:///etc".to_string(), "m".to_string(), None).err(),
        Some(session::ApiConfigRefusal::BadScheme)
    );
    assert_eq!(session::ApiConfigRefusal::TooLarge.message(), "JSON too large");
    assert_eq!(
        session::ApiConfigRefusal::BadScheme.message(),
        "base_url must use http:// or https://"
    );
}

#[test]
fn entered_api_key_rejects_empty_field() {
    assert_eq!(session::entered_api_key(String::new()), None);
    assert_eq!(session::entered_api_key("gsk_x".to_string()), Some("gsk_x".to_string()));
    assert_eq!(session::entered_api_key(" ".to_string()), Some(" ".to_string()));
}

#[test]
fn data_directory_names() {
    assert_eq!(whispercrabs::config::DATA_DIR_NAME, "whispercrabs");
    assert_eq!(whispercrabs::config::HISTORY_DB_FILE, "history.db");
    assert_eq!(whispercrabs::config::MODELS_DIR_NAME, "models");
}
