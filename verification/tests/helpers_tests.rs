use whispercrabs::auto_paste::{self, PasteAction, PasteError, PasteObservation};
use whispercrabs::config::{self, MouseHotkey, TtsProvider};
use whispercrabs::session;
use whispercrabs::download::{self, DownloadMsg};
use whispercrabs::endpoint;
use whispercrabs::menu;
use whispercrabs::mouse_hotkey::{self, HookConfig, ListenerPlan};
use whispercrabs::text;
use whispercrabs::transcript;
use whispercrabs::voice::{self, VoiceChoice, VoiceSetup};
use whispercrabs::window;

#[test]
fn text_helpers() {
    assert_eq!(text::trim_str("  a b\t\n"), "a b");
    assert_eq!(text::trim_str("\u{3000}x\u{a0}"), "x");
    assert_eq!(text::trim_str("   "), "");
    assert!(text::str_eq_ignore_ascii_case("TrUe", "true"));
    assert!(!text::str_eq_ignore_ascii_case("true ", "true"));
    assert_eq!(text::replace_str("a{style}b{style}", "{style}", "X"), "aXbX");
    assert_eq!(text::replace_str("aaa", "aa", "b"), "ba");
    assert_eq!(text::trim_end_matches_char("http://x///", '/'), "http://x");
    assert_eq!(text::decimal_string(0), "0");
    assert_eq!(text::decimal_string(4294967295), "4294967295");
    assert!(text::contains_str("Model load failed", "failed"));
    assert!(!text::contains_str("ok", "failed"));
    assert!(text::contains_str("abc", ""));
}

#[test]
fn endpoint_urls_and_validation() {
    assert!(endpoint::validate_base_url("https://api.groq.com/openai/v1").is_ok());
    assert!(endpoint::validate_base_url("http://localhost:11434/v1").is_ok());
    assert_eq!(
        endpoint::validate_base_url("file:///etc/passwd").unwrap_err(),
        "Invalid API URL: only http:// and https:// are allowed"
    );
    assert!(endpoint::is_unencrypted_remote("http://example.com/v1"));
    assert!(!endpoint::is_unencrypted_remote("http://localhost:1234/v1"));
    assert!(!endpoint::is_unencrypted_remote("http://127.0.0.1/v1"));
    assert!(!endpoint::is_unencrypted_remote("http://[::1]/v1"));
    assert!(!endpoint::is_unencrypted_remote("https://example.com/v1"));
    assert_eq!(
        endpoint::transcription_url("https://api.groq.com/openai/v1/"),
        "https://api.groq.com/openai/v1/audio/transcriptions"
    );
    assert_eq!(endpoint::chat_completions_url("http://h/v1"), "http://h/v1/chat/completions");
}

#[test]
fn endpoint_prompts_and_replies() {
    assert_eq!(endpoint::prompt_template(Some("Be {style}.".to_string())), "Be {style}.");
    assert_eq!(endpoint::prompt_template(Some(" \n ".to_string())), endpoint::DEFAULT_SYSTEM_PROMPT);
    assert_eq!(endpoint::prompt_template(None), endpoint::DEFAULT_SYSTEM_PROMPT);
    assert_eq!(endpoint::system_prompt("Be {style}, {style}.", "brief"), "Be brief, brief.");
    assert!(endpoint::system_prompt(endpoint::DEFAULT_SYSTEM_PROMPT, "structured").contains("'structured'"));
    assert_eq!(endpoint::api_error_message("401 Unauthorized", "bad key"), "API error 401 Unauthorized: bad key");
    assert_eq!(endpoint::transcription_reply(Some("hi".into()), "{}").unwrap(), "hi");
    assert_eq!(
        endpoint::transcription_reply(None, "{\"x\":1}").unwrap_err(),
        "No 'text' field in response: {\"x\":1}"
    );
    assert_eq!(
        endpoint::chat_reply(None, "{}").unwrap_err(),
        "No choices[0].message.content field in response: {}"
    );
}

#[test]
fn mouse_hook_decisions() {
    let cfg = Some(HookConfig { hotkey: MouseHotkey::XButton1, consume: true });
    let x1 = 0x0001_0000u32;
    let x2 = 0x0002_0000u32;
    assert_eq!(mouse_hotkey::xbutton(0x0002_1234), 2);
    let d = mouse_hotkey::hook_decision(cfg, 0, mouse_hotkey::WM_XBUTTONDOWN, x1);
    assert!(d.notify && d.swallow);
    let d = mouse_hotkey::hook_decision(cfg, 0, mouse_hotkey::WM_XBUTTONUP, x1);
    assert!(!d.notify && d.swallow);
    let d = mouse_hotkey::hook_decision(cfg, 0, mouse_hotkey::WM_XBUTTONDOWN, x2);
    assert!(!d.notify && !d.swallow);
    let d = mouse_hotkey::hook_decision(cfg, 1, mouse_hotkey::WM_XBUTTONDOWN, x1);
    assert!(!d.notify && !d.swallow);
    let d = mouse_hotkey::hook_decision(None, 0, mouse_hotkey::WM_XBUTTONDOWN, x1);
    assert!(!d.notify && !d.swallow);
    let keep = Some(HookConfig { hotkey: MouseHotkey::Middle, consume: false });
    let d = mouse_hotkey::hook_decision(keep, 0, mouse_hotkey::WM_MBUTTONDOWN, 0);
    assert!(d.notify && !d.swallow);
    assert_eq!(mouse_hotkey::listener_plan(MouseHotkey::Disabled, true), ListenerPlan::Disabled);
    assert_eq!(mouse_hotkey::listener_plan(MouseHotkey::Middle, false), ListenerPlan::Unsupported);
    assert_eq!(mouse_hotkey::listener_plan(MouseHotkey::XButton2, true), ListenerPlan::Install);
}

#[test]
fn paste_steps() {
    assert!(auto_paste::capture_foreground_window(0).is_none());
    let t = auto_paste::capture_foreground_window(42).unwrap();
    assert_eq!(t.hwnd(), 42);
    assert!(matches!(auto_paste::paste_into_target_step(&t, PasteObservation::Begin), PasteAction::CheckWindow));
    assert!(matches!(auto_paste::paste_into_target_step(&t, PasteObservation::IsWindow(true)), PasteAction::RaiseWindow));
    assert!(matches!(
        auto_paste::paste_into_target_step(&t, PasteObservation::SetForeground(true)),
        PasteAction::WaitThenReadForeground(120)
    ));
    assert!(matches!(auto_paste::paste_into_target_step(&t, PasteObservation::Foreground(42)), PasteAction::SendCtrlV));
    assert!(matches!(auto_paste::paste_into_target_step(&t, PasteObservation::Sent(4)), PasteAction::Finish(Ok(()))));
    match auto_paste::paste_into_target_step(&t, PasteObservation::Foreground(7)) {
        PasteAction::Finish(Err(e)) => assert_eq!(e.message(), "foreground window did not restore to saved target"),
        _ => panic!("expected an error"),
    }
    match auto_paste::paste_into_target_step(&t, PasteObservation::Sent(2)) {
        PasteAction::Finish(Err(e)) => {
            assert_eq!(e, PasteError::IncompleteInput(2));
            assert_eq!(e.message(), "SendInput sent 2 of 4 keyboard events");
        }
        _ => panic!("expected an error"),
    }
    assert_eq!(PasteError::WindowGone.message(), "auto paste target window is no longer valid");
    let keys = auto_paste::ctrl_v_inputs();
    assert_eq!(keys.len(), 4);
    assert_eq!((keys[0].vk, keys[0].flags), (0x11, 0));
    assert_eq!((keys[1].vk, keys[1].flags), (0x56, 0));
    assert_eq!((keys[2].vk, keys[2].flags), (0x56, 2));
    assert_eq!((keys[3].vk, keys[3].flags), (0x11, 2));
    assert!(keys.iter().all(|k| k.input_type == 1 && k.scan == 0 && k.time == 0 && k.extra_info == 0));
}

#[test]
fn window_positions() {
    assert_eq!(window::parse_i32("123"), Some(123));
    assert_eq!(window::parse_i32("-45"), Some(-45));
    assert_eq!(window::parse_i32("+7"), Some(7));
    assert_eq!(window::parse_i32("2147483647"), Some(i32::MAX));
    assert_eq!(window::parse_i32("-2147483648"), Some(i32::MIN));
    assert_eq!(window::parse_i32("2147483648"), None);
    assert_eq!(window::parse_i32("99999999999999999999"), None);
    assert_eq!(window::parse_i32(""), None);
    assert_eq!(window::parse_i32("-"), None);
    assert_eq!(window::parse_i32(" 1"), None);
    assert_eq!(window::parse_i32("1x"), None);
    for s in ["0", "-0", "+12", "31337", "-2147483649", "12a", "--1"] {
        assert_eq!(window::parse_i32(s), s.parse::<i32>().ok());
    }
    assert_eq!(window::saved_position(&Some("10".into()), &Some("20".into())), Some((10, 20)));
    assert_eq!(window::saved_position(&Some("10".into()), &None), None);
    assert_eq!(window::window_position(None, Some((0, 0, 1920, 1080))), (1820, 940));
    assert_eq!(window::window_position(None, None), (100, 100));
    assert_eq!(window::window_position(Some((5, 6)), Some((0, 0, 1920, 1080))), (5, 6));
}

#[test]
fn menu_entries_and_status() {
    let tiny = config::find_local_model("local-tiny").unwrap();
    assert_eq!(menu::local_model_label(&tiny), "Tiny (~78 МБ)");
    let medium = config::find_local_model("local-medium").unwrap();
    assert_eq!(menu::local_model_label(&medium), "Medium (~1.53 ГБ)");
    let local = menu::local_menu_entries();
    assert_eq!(local.len(), 4);
    assert_eq!(local[1].action, "app.transcription-mode::local-base");
    let api = menu::api_menu_entries();
    assert_eq!(api[0].label, "Groq (рекомендуем, бесплатно)");
    assert_eq!(api[0].action, "app.transcription-mode::groq");
    assert_eq!(api[1].action, "app.transcription-mode::custom");
    assert!(menu::is_error_status("No API key set"));
    assert!(menu::is_error_status("Err: device busy"));
    assert!(menu::is_error_status("Model load failed"));
    assert!(!menu::is_error_status("Copied!"));
}

#[test]
fn voice_decisions() {
    assert!(matches!(voice::voice_choice(true, "amy"), VoiceChoice::Ignore));
    assert!(matches!(voice::voice_choice(false, "none"), VoiceChoice::TurnOff));
    assert!(matches!(voice::voice_choice(false, "ryan"), VoiceChoice::Use(v) if v.id == "ryan"));
    assert!(matches!(voice::voice_choice(false, "zed"), VoiceChoice::Ignore));
    assert_eq!(voice::voice_setup(true, true), VoiceSetup::Load);
    assert_eq!(voice::voice_setup(true, false), VoiceSetup::Download { skip_venv: true });
    assert_eq!(voice::voice_setup(false, true), VoiceSetup::Download { skip_venv: false });
    assert!(voice::delete_old_voice("amy", "joe"));
    assert!(!voice::delete_old_voice("amy", "amy"));
    assert!(!voice::delete_old_voice("none", "amy"));
    assert!(!voice::delete_old_voice("", "amy"));
    assert!(voice::load_saved_voice(&Some("piper".into()), true, true));
    assert!(!voice::load_saved_voice(&Some("none".into()), true, true));
    assert!(!voice::load_saved_voice(&None, true, true));
    let joe = config::find_piper_voice("joe").unwrap();
    assert_eq!(voice::download_dialog_label(&joe, true), "Downloading voice: Joe (US Male)...");
    assert_eq!(voice::download_dialog_label(&joe, false), "Setting up Piper TTS engine...");
    assert!(!voice::worth_reading(" \n\t"));
    assert!(voice::worth_reading(" hi "));
}

#[test]
fn download_batches() {
    let msgs = vec![
        DownloadMsg::StepLabel("a".into()),
        DownloadMsg::Progress(10, Some(100)),
        DownloadMsg::Progress(20, Some(100)),
        DownloadMsg::StepLabel("b".into()),
        DownloadMsg::Error("boom".into()),
    ];
    let s = download::summarize(&msgs);
    assert_eq!(s.progress, Some((20, Some(100))));
    assert_eq!(s.label, Some("b".to_string()));
    assert_eq!(s.outcome, Some(Err("boom".to_string())));
    let s = download::summarize(&vec![]);
    assert!(s.progress.is_none() && s.label.is_none() && s.outcome.is_none());
    assert!(matches!(download::last_message(msgs), Some(DownloadMsg::Error(e)) if e == "boom"));
    assert!(download::last_message(vec![]).is_none());
}

#[test]
fn transcript_segments() {
    let segs = vec![Some(" Привет,".to_string()), None, Some(" мир. ".to_string())];
    assert_eq!(transcript::join_segments(&segs), "Привет, мир.");
    assert_eq!(transcript::join_segments(&vec![]), "");
    assert!(!transcript::needs_resampling(16000));
    assert!(transcript::needs_resampling(48000));
}

#[test]
fn geometry_report_position() {
    let out = "Window 6291463\n  Position: 1820,940 (screen: 0)\n  Geometry: 88x100\n";
    assert_eq!(window::position_in_geometry(out), Some(("1820".to_string(), "940".to_string())));
    let out = "  Position: 1,2\r\n  Position: 3 , \n";
    assert_eq!(window::position_in_geometry(out), Some(("3".to_string(), "0".to_string())));
    assert_eq!(window::position_in_geometry(""), None);
    assert_eq!(window::position_in_geometry("Position: 1,2\n  Position: 12"), None);
    assert_eq!(window::position_on_line("  Position: 5,6"), Some(("5".to_string(), "6".to_string())));
}

#[test]
fn defaults_for_models_and_voice_menu() {
    assert_eq!(session::local_model_or_default("local-small").file_name, "ggml-small.bin");
    assert_eq!(session::local_model_or_default("groq").file_name, "ggml-tiny.bin");
    assert_eq!(voice::voice_menu_state(TtsProvider::Piper, "cori"), "cori");
    assert_eq!(voice::voice_menu_state(TtsProvider::Disabled, "cori"), "none");
}

#[test]
fn speech_states() {
    assert_eq!(voice::speech_state_after(voice::SpeechEvent::Requested), session::State::Synthesizing);
    assert_eq!(voice::speech_state_after(voice::SpeechEvent::Synthesized), session::State::Speaking);
    assert_eq!(voice::speech_state_after(voice::SpeechEvent::SynthesisFailed), session::State::Idle);
    assert_eq!(voice::speech_state_after(voice::SpeechEvent::PlaybackEnded), session::State::Idle);
}
