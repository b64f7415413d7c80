//! The button's state machine and the choice of transcription provider: what a click does,
//! which provider is active after a menu choice, and which one a restart brings back.
use vstd::prelude::*;

use crate::config::{
    clone_opt, find_by_key, find_local_model, find_preset, lemma_api_preset_found_by_id,
    lemma_find_by_key_some, lemma_local_model_found_by_id, opt_view, or_default,
    spec_api_presets, spec_local_model_presets, ApiPreset, Config, Keyed, LocalModelPreset,
    TranscriptionService, DEFAULT_LOCAL_MODEL,
};
use crate::endpoint::{has_allowed_scheme, spec_allowed_scheme};
use crate::text::{concat2, str_eq};

verus! {

/// What the floating button is doing.
#[derive(Clone, Copy, PartialEq, Eq, Debug, Structural)]
pub enum State {
    Idle,
    Recording,
    Processing,
    Synthesizing,
    Speaking,
}

/// What asked for the recording to start or stop.
#[derive(Clone, Copy, PartialEq, Eq, Debug, Structural)]
pub enum ToggleSource {
    Button,
    MouseHotkey,
}

/// Why a recording could not start.
#[derive(Clone, Copy, PartialEq, Eq, Debug, Structural)]
pub enum StartRefusal {
    Downloading,
    NoLocalModel,
    NoApiKey,
    NoMicrophone,
}

impl StartRefusal {
    /// The status text shown for the refusal.
    pub open spec fn spec_message(self) -> Seq<char> {
        match self {
            StartRefusal::Downloading => "Downloading model..."@,
            StartRefusal::NoLocalModel => "No local model loaded"@,
            StartRefusal::NoApiKey => "No API key set"@,
            StartRefusal::NoMicrophone => "No microphone found"@,
        }
    }

    /// The status text shown for the refusal.
    pub fn message(self) -> (r: &'static str)
        ensures
            r@ == self.spec_message(),
    {
        match self {
            StartRefusal::Downloading => "Downloading model...",
            StartRefusal::NoLocalModel => "No local model loaded",
            StartRefusal::NoApiKey => "No API key set",
            StartRefusal::NoMicrophone => "No microphone found",
        }
    }
}

/// What a click (or the mouse hotkey) does.
#[derive(Clone, Copy, PartialEq, Eq, Debug, Structural)]
pub enum ToggleAction {
    /// Nothing: the button is busy.
    Ignore,
    /// Show why recording cannot start.
    Refuse(StartRefusal),
    /// Start recording.
    StartRecording,
    /// Stop recording and transcribe what was recorded.
    StopAndTranscribe,
    /// Stop reading text aloud.
    StopSpeaking,
}

/// What is known when a recording is asked to start.
#[derive(Clone, Copy, PartialEq, Eq, Debug, Structural)]
pub struct StartChecks {
    /// A model download is under way.
    pub downloading: bool,
    /// A local whisper model is loaded.
    pub local_model_loaded: bool,
    /// An API key is set.
    pub has_api_key: bool,
    /// An input device is available.
    pub microphone_available: bool,
}

/// Whether the provider needs an API key: a preset says so; a custom endpoint's key is
/// optional, so it needs none.
pub open spec fn spec_needs_key(provider: Seq<char>) -> bool {
    match find_by_key(spec_api_presets(), provider) {
        Some(p) => p.needs_key,
        None => false,
    }
}

/// Whether the provider needs an API key: a preset says so; a custom endpoint's key is
/// optional, so it needs none.
pub fn provider_needs_key(provider: &str) -> (r: bool)
    ensures
        r == spec_needs_key(provider@),
{
    match find_preset(provider) {
        Some(p) => p.needs_key,
        None => false,
    }
}

/// What a click or the hotkey does in a given state.
pub open spec fn spec_toggle_action(
    source: ToggleSource,
    state: State,
    service: TranscriptionService,
    provider: Seq<char>,
    checks: StartChecks,
) -> ToggleAction {
    match state {
        State::Idle => if checks.downloading {
            ToggleAction::Refuse(StartRefusal::Downloading)
        } else if service == TranscriptionService::Local && !checks.local_model_loaded {
            ToggleAction::Refuse(StartRefusal::NoLocalModel)
        } else if service == TranscriptionService::Api && spec_needs_key(provider)
            && !checks.has_api_key {
            ToggleAction::Refuse(StartRefusal::NoApiKey)
        } else if !checks.microphone_available {
            ToggleAction::Refuse(StartRefusal::NoMicrophone)
        } else {
            ToggleAction::StartRecording
        },
        State::Recording => ToggleAction::StopAndTranscribe,
        State::Processing | State::Synthesizing => ToggleAction::Ignore,
        State::Speaking => if source == ToggleSource::Button {
            ToggleAction::StopSpeaking
        } else {
            ToggleAction::Ignore
        },
    }
}

/// Decides what a click (or the mouse hotkey) does.
pub fn toggle_action(
    source: ToggleSource,
    state: State,
    service: TranscriptionService,
    provider: &str,
    checks: StartChecks,
) -> (r: ToggleAction)
    ensures
        r == spec_toggle_action(source, state, service, provider@, checks),
{
    match state {
        State::Idle => {
            if checks.downloading {
                ToggleAction::Refuse(StartRefusal::Downloading)
            } else if service == TranscriptionService::Local && !checks.local_model_loaded {
                ToggleAction::Refuse(StartRefusal::NoLocalModel)
            } else if service == TranscriptionService::Api && provider_needs_key(provider)
                && !checks.has_api_key {
                ToggleAction::Refuse(StartRefusal::NoApiKey)
            } else if !checks.microphone_available {
                ToggleAction::Refuse(StartRefusal::NoMicrophone)
            } else {
                ToggleAction::StartRecording
            }
        },
        State::Recording => ToggleAction::StopAndTranscribe,
        State::Processing | State::Synthesizing => ToggleAction::Ignore,
        State::Speaking => {
            if source == ToggleSource::Button {
                ToggleAction::StopSpeaking
            } else {
                ToggleAction::Ignore
            }
        },
    }
}

/// The state after an action, given whether the recorder did what was asked of it.
pub open spec fn spec_state_after(state: State, action: ToggleAction, recorder_ok: bool) -> State {
    match action {
        ToggleAction::StartRecording => if recorder_ok {
            State::Recording
        } else {
            state
        },
        ToggleAction::StopAndTranscribe => if recorder_ok {
            State::Processing
        } else {
            State::Idle
        },
        _ => state,
    }
}

/// The state after an action, given whether the recorder started or stopped as asked.
pub fn state_after(state: State, action: ToggleAction, recorder_ok: bool) -> (r: State)
    ensures
        r == spec_state_after(state, action, recorder_ok),
{
    match action {
        ToggleAction::StartRecording => {
            if recorder_ok {
                State::Recording
            } else {
                state
            }
        },
        ToggleAction::StopAndTranscribe => {
            if recorder_ok {
                State::Processing
            } else {
                State::Idle
            }
        },
        _ => state,
    }
}

/// The mouse hotkey never interrupts work in progress: while transcribing or reading aloud it
/// does nothing, and it never stops a reading.
pub proof fn lemma_hotkey_ignored_while_busy(
    state: State,
    service: TranscriptionService,
    provider: Seq<char>,
    checks: StartChecks,
)
    requires
        state == State::Processing || state == State::Synthesizing || state == State::Speaking,
    ensures
        spec_toggle_action(ToggleSource::MouseHotkey, state, service, provider, checks)
            == ToggleAction::Ignore,
{
}

/// A recording starts only from idle, with no download running, with what the provider needs
/// (a loaded model, or a key where the provider needs one) and with a microphone; and then the
/// button goes to recording only if the recorder started.
pub proof fn lemma_recording_starts_only_when_ready(
    source: ToggleSource,
    state: State,
    service: TranscriptionService,
    provider: Seq<char>,
    checks: StartChecks,
    recorder_ok: bool,
)
    requires
        spec_state_after(
            state,
            spec_toggle_action(source, state, service, provider, checks),
            recorder_ok,
        ) == State::Recording,
        state != State::Recording,
    ensures
        state == State::Idle,
        !checks.downloading,
        checks.microphone_available,
        recorder_ok,
        service == TranscriptionService::Local ==> checks.local_model_loaded,
        service == TranscriptionService::Api && spec_needs_key(provider) ==> checks.has_api_key,
{
}

/// A custom endpoint's key is optional: with the API service on the custom endpoint, a click on
/// the idle button (or the hotkey) starts recording whenever no download is under way and a
/// microphone is there, whether or not a key is set.
pub proof fn lemma_custom_endpoint_starts_without_key(source: ToggleSource, checks: StartChecks)
    requires
        !checks.downloading,
        checks.microphone_available,
    ensures
        spec_toggle_action(source, State::Idle, TranscriptionService::Api, "custom"@, checks)
            == ToggleAction::StartRecording,
{
    reveal_strlit("custom");
    reveal_strlit("groq");
    reveal_strlit("ollama");
    reveal_strlit("openrouter");
    reveal_strlit("lmstudio");
    let presets = spec_api_presets();
    assert forall|j: int| 0 <= j < presets.len() implies (#[trigger] presets[j]).key() != "custom"@ by {
        if j == 1 {
            assert(presets[j].key()[0] != "custom"@[0]);
        } else {
            assert(presets[j].key().len() != "custom"@.len());
        }
    }
    lemma_find_by_key_some(presets, "custom"@);
}

/// While recording, every toggle stops the recording and transcribes it: a click and the mouse
/// hotkey alike, whatever the service, the provider and the start checks.
pub proof fn lemma_recording_always_stops(
    source: ToggleSource,
    service: TranscriptionService,
    provider: Seq<char>,
    checks: StartChecks,
)
    ensures
        spec_toggle_action(source, State::Recording, service, provider, checks)
            == ToggleAction::StopAndTranscribe,
        spec_state_after(
            State::Recording,
            spec_toggle_action(source, State::Recording, service, provider, checks),
            true,
        ) == State::Processing,
{
}

/// How a transcription ended.
#[derive(Clone, Copy, PartialEq, Eq, Debug, Structural)]
pub enum TranscriptionOutcome {
    /// Text came back.
    Text,
    /// The transcription failed.
    Failed,
    /// The worker went away without an answer.
    Lost,
}

/// A status shown when a transcription ends.
#[derive(Clone, Copy, PartialEq, Eq, Debug, Structural)]
pub enum CompletionStatus {
    Copied,
    Error,
}

impl CompletionStatus {
    /// The status text.
    pub fn message(self) -> (r: &'static str)
        ensures
            r@ == (match self {
                CompletionStatus::Copied => "Copied!"@,
                CompletionStatus::Error => "Error!"@,
            }),
    {
        match self {
            CompletionStatus::Copied => "Copied!",
            CompletionStatus::Error => "Error!",
        }
    }
}

/// What to do when a transcription ends.
#[derive(Clone, Copy, PartialEq, Eq, Debug, Structural)]
pub struct CompletionPlan {
    /// Store the text in the history and copy it to the clipboard.
    pub keep_text: bool,
    /// Paste into the window that was in front when recording started.
    pub paste: bool,
    /// Report that auto-paste had no window to paste into.
    pub report_missing_target: bool,
    /// Play the completion sound.
    pub play_notification: bool,
    /// Show the button as done.
    pub mark_done: bool,
    /// Status text to show, if any.
    pub status: Option<CompletionStatus>,
    /// Seconds after which the status is hidden again.
    pub hide_after_secs: u64,
}

/// The plan for the end of a transcription; `clipboard_ok` says whether copying the text to the
/// clipboard worked (it is tried only when text came back).
pub open spec fn spec_completion_plan(
    outcome: TranscriptionOutcome,
    clipboard_ok: bool,
    auto_paste: bool,
    has_target: bool,
    notify: bool,
) -> CompletionPlan {
    match outcome {
        TranscriptionOutcome::Text => if clipboard_ok {
            CompletionPlan {
                keep_text: true,
                paste: auto_paste && has_target,
                report_missing_target: auto_paste && !has_target,
                play_notification: notify,
                mark_done: true,
                status: Some(CompletionStatus::Copied),
                hide_after_secs: 2,
            }
        } else {
            CompletionPlan {
                keep_text: true,
                paste: false,
                report_missing_target: false,
                play_notification: false,
                mark_done: false,
                status: Some(CompletionStatus::Error),
                hide_after_secs: 3,
            }
        },
        TranscriptionOutcome::Failed => CompletionPlan {
            keep_text: false,
            paste: false,
            report_missing_target: false,
            play_notification: false,
            mark_done: false,
            status: Some(CompletionStatus::Error),
            hide_after_secs: 3,
        },
        TranscriptionOutcome::Lost => CompletionPlan {
            keep_text: false,
            paste: false,
            report_missing_target: false,
            play_notification: false,
            mark_done: false,
            status: None,
            hide_after_secs: 0,
        },
    }
}

/// The plan for the end of a transcription. Whatever the outcome, the button is idle after it.
pub fn completion_plan(
    outcome: TranscriptionOutcome,
    clipboard_ok: bool,
    auto_paste: bool,
    has_target: bool,
    notify: bool,
) -> (r: CompletionPlan)
    ensures
        r == spec_completion_plan(outcome, clipboard_ok, auto_paste, has_target, notify),
{
    match outcome {
        TranscriptionOutcome::Text => {
            if clipboard_ok {
                CompletionPlan {
                    keep_text: true,
                    paste: auto_paste && has_target,
                    report_missing_target: auto_paste && !has_target,
                    play_notification: notify,
                    mark_done: true,
                    status: Some(CompletionStatus::Copied),
                    hide_after_secs: 2,
                }
            } else {
                CompletionPlan {
                    keep_text: true,
                    paste: false,
                    report_missing_target: false,
                    play_notification: false,
                    mark_done: false,
                    status: Some(CompletionStatus::Error),
                    hide_after_secs: 3,
                }
            }
        },
        TranscriptionOutcome::Failed => CompletionPlan {
            keep_text: false,
            paste: false,
            report_missing_target: false,
            play_notification: false,
            mark_done: false,
            status: Some(CompletionStatus::Error),
            hide_after_secs: 3,
        },
        TranscriptionOutcome::Lost => CompletionPlan {
            keep_text: false,
            paste: false,
            report_missing_target: false,
            play_notification: false,
            mark_done: false,
            status: None,
            hide_after_secs: 0,
        },
    }
}

/// The completion sound follows its setting alone: when text came back and was copied, it plays
/// exactly when the sound is enabled, whether or not auto-paste is on or has a window; and it
/// never plays otherwise.
pub proof fn lemma_sound_follows_setting(
    outcome: TranscriptionOutcome,
    clipboard_ok: bool,
    auto_paste: bool,
    has_target: bool,
    notify: bool,
)
    ensures
        spec_completion_plan(TranscriptionOutcome::Text, true, auto_paste, has_target, notify).play_notification
            == notify,
        spec_completion_plan(outcome, clipboard_ok, auto_paste, has_target, notify).play_notification
            ==> outcome == TranscriptionOutcome::Text && clipboard_ok && notify,
{
}

/// Auto-paste pastes only text that was copied, only when it is enabled, and only into a window
/// captured when the recording started.
pub proof fn lemma_paste_only_copied_text(
    outcome: TranscriptionOutcome,
    clipboard_ok: bool,
    auto_paste: bool,
    has_target: bool,
    notify: bool,
)
    requires
        spec_completion_plan(outcome, clipboard_ok, auto_paste, has_target, notify).paste,
    ensures
        outcome == TranscriptionOutcome::Text,
        clipboard_ok,
        auto_paste,
        has_target,
{
}

/// The transcription backend in use and how to reach it.
pub struct ActiveProvider {
    pub service: TranscriptionService,
    /// A preset identifier, `custom`, or a local model identifier.
    pub provider: String,
    pub api_base_url: String,
    pub api_key: Option<String>,
    pub api_model: String,
}

/// The mathematical value of an `ActiveProvider`.
pub struct ProviderView {
    pub service: TranscriptionService,
    pub provider: Seq<char>,
    pub api_base_url: Seq<char>,
    pub api_key: Option<Seq<char>>,
    pub api_model: Seq<char>,
}

impl View for ActiveProvider {
    type V = ProviderView;

    open spec fn view(&self) -> ProviderView {
        ProviderView {
            service: self.service,
            provider: self.provider@,
            api_base_url: self.api_base_url@,
            api_key: opt_view(self.api_key),
            api_model: self.api_model@,
        }
    }
}

/// What the settings store holds about the provider chosen last time.
pub struct StoredSettings {
    /// `transcription_mode`: the provider chosen last.
    pub transcription_mode: Option<String>,
    /// `api_custom_url`
    pub custom_url: Option<String>,
    /// `api_custom_key`
    pub custom_key: Option<String>,
    /// `api_custom_model`
    pub custom_model: Option<String>,
    /// `api_key_<mode>`: the key stored for the preset named by the mode.
    pub preset_key: Option<String>,
}

/// The first of two optional strings that is set, as a view.
pub open spec fn or_else_view(a: Option<String>, b: Option<Seq<char>>) -> Option<Seq<char>> {
    match a {
        Some(s) => Some(s@),
        None => b,
    }
}

/// The provider that the environment configuration alone selects.
pub open spec fn spec_env_provider(config: Config, provider: Seq<char>) -> ProviderView {
    ProviderView {
        service: config.transcription_service,
        provider: provider,
        api_base_url: config.api_base_url@,
        api_key: opt_view(config.api_key),
        api_model: config.api_model@,
    }
}

/// The provider a preset selects, with the key found for it.
pub open spec fn spec_preset_provider(p: ApiPreset, key: Option<Seq<char>>) -> ProviderView {
    ProviderView {
        service: TranscriptionService::Api,
        provider: p.id@,
        api_base_url: p.base_url@,
        api_key: key,
        api_model: p.default_model@,
    }
}

/// The key used for a preset: the stored one, else the environment's; none if it needs none.
pub open spec fn spec_preset_key(p: ApiPreset, stored: Option<String>, env_key: Option<String>) -> Option<Seq<char>> {
    if p.needs_key {
        or_else_view(stored, opt_view(env_key))
    } else {
        None
    }
}

/// The provider active at start-up: the stored choice where there is one, else the environment's.
pub open spec fn spec_initial_provider(stored: StoredSettings, config: Config) -> ProviderView {
    match stored.transcription_mode {
        None => spec_env_provider(
            config,
            if config.transcription_service == TranscriptionService::Local {
                DEFAULT_LOCAL_MODEL@
            } else {
                "groq"@
            },
        ),
        Some(m) => if m@ == "local"@ {
            ProviderView {
                service: TranscriptionService::Local,
                ..spec_env_provider(config, DEFAULT_LOCAL_MODEL@)
            }
        } else if m@ == "custom"@ {
            ProviderView {
                service: TranscriptionService::Api,
                provider: "custom"@,
                api_base_url: or_default(stored.custom_url, config.api_base_url@),
                api_key: or_else_view(stored.custom_key, opt_view(config.api_key)),
                api_model: or_default(stored.custom_model, config.api_model@),
            }
        } else {
            match find_by_key(spec_api_presets(), m@) {
                Some(p) => spec_preset_provider(p, spec_preset_key(p, stored.preset_key, config.api_key)),
                None => match find_by_key(spec_local_model_presets(), m@) {
                    Some(lm) => ProviderView {
                        service: TranscriptionService::Local,
                        ..spec_env_provider(config, m@)
                    },
                    None => spec_env_provider(config, "groq"@),
                },
            }
        },
    }
}

fn copy_or(o: &Option<String>, d: &String) -> (r: String)
    ensures
        r@ == or_default(*o, d@),
{
    match o {
        Some(s) => s.clone(),
        None => d.clone(),
    }
}

fn copy_or_else(a: &Option<String>, b: &Option<String>) -> (r: Option<String>)
    ensures
        opt_view(r) == or_else_view(*a, opt_view(*b)),
{
    match a {
        Some(s) => Some(s.clone()),
        None => clone_opt(b),
    }
}

fn env_provider(config: &Config, service: TranscriptionService, provider: &str) -> (r: ActiveProvider)
    ensures
        r@ == (ProviderView { service: service, ..spec_env_provider(*config, provider@) }),
{
    ActiveProvider {
        service,
        provider: String::from_str(provider),
        api_base_url: config.api_base_url.clone(),
        api_key: clone_opt(&config.api_key),
        api_model: config.api_model.clone(),
    }
}

/// The name under which the key of a preset is stored.
pub fn api_key_setting_name(preset_id: &str) -> (r: String)
    ensures
        r@ == "api_key_"@ + preset_id@,
{
    concat2("api_key_", preset_id)
}

/// The key used for a preset: the stored one, else the environment's; none if it needs none.
pub fn preset_key(p: &ApiPreset, stored: &Option<String>, env_key: &Option<String>) -> (r: Option<String>)
    ensures
        opt_view(r) == spec_preset_key(*p, *stored, *env_key),
{
    if p.needs_key {
        copy_or_else(stored, env_key)
    } else {
        None
    }
}

/// The provider a preset selects, with the given key.
pub fn apply_preset(p: &ApiPreset, api_key: Option<String>) -> (r: ActiveProvider)
    ensures
        r@ == spec_preset_provider(*p, opt_view(api_key)),
{
    ActiveProvider {
        service: TranscriptionService::Api,
        provider: String::from_str(p.id),
        api_base_url: String::from_str(p.base_url),
        api_key,
        api_model: String::from_str(p.default_model),
    }
}

/// The provider active at start-up: the stored choice where there is one, else the environment's.
pub fn resolve_initial_provider(stored: &StoredSettings, config: &Config) -> (r: ActiveProvider)
    ensures
        r@ == spec_initial_provider(*stored, *config),
{
    match &stored.transcription_mode {
        None => {
            if config.transcription_service == TranscriptionService::Local {
                env_provider(config, config.transcription_service, DEFAULT_LOCAL_MODEL)
            } else {
                env_provider(config, config.transcription_service, "groq")
            }
        },
        Some(m) => {
            let m = m.as_str();
            if str_eq(m, "local") {
                env_provider(config, TranscriptionService::Local, DEFAULT_LOCAL_MODEL)
            } else if str_eq(m, "custom") {
                ActiveProvider {
                    service: TranscriptionService::Api,
                    provider: String::from_str("custom"),
                    api_base_url: copy_or(&stored.custom_url, &config.api_base_url),
                    api_key: copy_or_else(&stored.custom_key, &config.api_key),
                    api_model: copy_or(&stored.custom_model, &config.api_model),
                }
            } else {
                match find_preset(m) {
                    Some(p) => {
                        let key = preset_key(&p, &stored.preset_key, &config.api_key);
                        apply_preset(&p, key)
                    },
                    None => match find_local_model(m) {
                        Some(_) => env_provider(config, TranscriptionService::Local, m),
                        None => env_provider(config, config.transcription_service, "groq"),
                    },
                }
            }
        },
    }
}

/// A preset chosen from the menu comes back after a restart: when the settings store holds the
/// preset's identifier as the mode, start-up selects that preset, with the key that choosing it
/// used (the key stored for it, else the environment's).
pub proof fn lemma_preset_choice_restored(i: int, stored: StoredSettings, config: Config)
    requires
        0 <= i < spec_api_presets().len(),
        stored.transcription_mode matches Some(m) && m@ == spec_api_presets()[i].id@,
    ensures
        spec_initial_provider(stored, config) == spec_preset_provider(
            spec_api_presets()[i],
            spec_preset_key(spec_api_presets()[i], stored.preset_key, config.api_key),
        ),
{
    reveal_strlit("local");
    reveal_strlit("custom");
    reveal_strlit("groq");
    reveal_strlit("ollama");
    reveal_strlit("openrouter");
    reveal_strlit("lmstudio");
    lemma_api_preset_found_by_id(i);
    let id = spec_api_presets()[i].id@;
    assert(id != "local"@) by {
        if id.len() == 5 {
            assert(id[0] != "local"@[0]);
        }
    }
    assert(id != "custom"@) by {
        if id.len() == 6 {
            assert(id[0] != "custom"@[0]);
        }
    }
}

/// A local model chosen from the menu comes back after a restart: when the settings store holds
/// the model's identifier as the mode, start-up selects local transcription with that model.
pub proof fn lemma_local_choice_restored(i: int, stored: StoredSettings, config: Config)
    requires
        0 <= i < spec_local_model_presets().len(),
        stored.transcription_mode matches Some(m) && m@ == spec_local_model_presets()[i].id@,
    ensures
        spec_initial_provider(stored, config).service == TranscriptionService::Local,
        spec_initial_provider(stored, config).provider == spec_local_model_presets()[i].id@,
{
    reveal_strlit("local");
    reveal_strlit("custom");
    reveal_strlit("local-tiny");
    reveal_strlit("local-base");
    reveal_strlit("local-small");
    reveal_strlit("local-medium");
    lemma_local_model_found_by_id(i);
    let id = spec_local_model_presets()[i].id@;
    assert(id.len() != "local"@.len());
    assert(id.len() != "custom"@.len());
    lemma_find_by_key_some(spec_api_presets(), id);
    reveal_strlit("groq");
    reveal_strlit("ollama");
    reveal_strlit("openrouter");
    reveal_strlit("lmstudio");
    assert forall|j: int| 0 <= j < spec_api_presets().len() implies (#[trigger] spec_api_presets()[j]).id@ != id by {
        let q = spec_api_presets()[j].id@;
        if q.len() == id.len() {
            assert(q[0] != id[0]);
        }
    }
}

/// The provider a custom endpoint selects.
pub open spec fn spec_custom_provider(url: Seq<char>, key: Option<Seq<char>>, model: Seq<char>) -> ProviderView {
    ProviderView {
        service: TranscriptionService::Api,
        provider: "custom"@,
        api_base_url: url,
        api_key: key,
        api_model: model,
    }
}

/// The provider a custom endpoint selects.
pub fn custom_provider(url: String, api_key: Option<String>, model: String) -> (r: ActiveProvider)
    ensures
        r@ == spec_custom_provider(url@, opt_view(api_key), model@),
{
    ActiveProvider {
        service: TranscriptionService::Api,
        provider: String::from_str("custom"),
        api_base_url: url,
        api_key,
        api_model: model,
    }
}

/// A custom endpoint set up with a key comes back after a restart: when the settings store holds
/// `custom` as the mode and the endpoint's address, key and model, start-up selects that endpoint.
pub proof fn lemma_custom_choice_restored(stored: StoredSettings, config: Config)
    requires
        stored.transcription_mode matches Some(m) && m@ == "custom"@,
        stored.custom_url is Some,
        stored.custom_key is Some,
        stored.custom_model is Some,
    ensures
        spec_initial_provider(stored, config) == spec_custom_provider(
            stored.custom_url->0@,
            opt_view(stored.custom_key),
            stored.custom_model->0@,
        ),
{
    reveal_strlit("local");
    reveal_strlit("custom");
    assert("custom"@.len() != "local"@.len());
}

/// What the custom API dialog's Save button does with its three fields: nothing unless the
/// address and the model are filled in; an empty key field means no key.
pub open spec fn spec_custom_from_dialog(url: Seq<char>, key: Seq<char>, model: Seq<char>) -> Option<ProviderView> {
    if url.len() == 0 || model.len() == 0 {
        None
    } else {
        Some(spec_custom_provider(url, if key.len() == 0 { None } else { Some(key) }, model))
    }
}

/// The provider that the custom API dialog's fields select, if they are complete.
pub fn custom_from_dialog(url: String, key: String, model: String) -> (r: Option<ActiveProvider>)
    ensures
        match r {
            Some(p) => spec_custom_from_dialog(url@, key@, model@) == Some(p@),
            None => spec_custom_from_dialog(url@, key@, model@) is None,
        },
{
    if url.as_str().is_empty() || model.as_str().is_empty() {
        return None;
    }
    let api_key = if key.as_str().is_empty() {
        None
    } else {
        Some(key)
    };
    Some(custom_provider(url, api_key, model))
}

/// Largest accepted size, in bytes, of a programmatic API configuration.
pub const MAX_API_CONFIG_LEN: usize = 4096;

/// Whether a programmatic API configuration of `json_len` bytes is small enough to read.
pub fn api_config_size_ok(json_len: usize) -> (r: bool)
    ensures
        r == (json_len <= MAX_API_CONFIG_LEN),
{
    json_len <= MAX_API_CONFIG_LEN
}

/// Why a programmatic API configuration was refused.
#[derive(Clone, Copy, PartialEq, Eq, Debug, Structural)]
pub enum ApiConfigRefusal {
    /// The request is larger than `MAX_API_CONFIG_LEN` bytes.
    TooLarge,
    /// The address is neither `http://` nor `https://`.
    BadScheme,
}

impl ApiConfigRefusal {
    /// The text logged for the refusal.
    pub open spec fn spec_message(self) -> Seq<char> {
        match self {
            ApiConfigRefusal::TooLarge => "JSON too large"@,
            ApiConfigRefusal::BadScheme => "base_url must use http:// or https://"@,
        }
    }

    /// The text logged for the refusal.
    pub fn message(self) -> (r: &'static str)
        ensures
            r@ == self.spec_message(),
    {
        match self {
            ApiConfigRefusal::TooLarge => "JSON too large",
            ApiConfigRefusal::BadScheme => "base_url must use http:// or https://",
        }
    }
}

/// What a programmatic API configuration of `json_len` bytes, naming an address, a model and
/// perhaps a key, leads to: refused when too large, then when the address has another scheme;
/// otherwise the custom endpoint with those values (its key is optional).
pub open spec fn spec_api_config_request(
    json_len: int,
    url: Seq<char>,
    key: Option<Seq<char>>,
    model: Seq<char>,
) -> Result<ProviderView, ApiConfigRefusal> {
    if json_len > MAX_API_CONFIG_LEN {
        Err(ApiConfigRefusal::TooLarge)
    } else if !spec_allowed_scheme(url) {
        Err(ApiConfigRefusal::BadScheme)
    } else {
        Ok(spec_custom_provider(url, key, model))
    }
}

/// The provider that a programmatic API configuration selects, or why it is refused.
pub fn api_config_request(
    json_len: usize,
    base_url: String,
    model: String,
    api_key: Option<String>,
) -> (r: Result<ActiveProvider, ApiConfigRefusal>)
    ensures
        match r {
            Ok(p) => spec_api_config_request(json_len as int, base_url@, opt_view(api_key), model@)
                == Ok::<ProviderView, ApiConfigRefusal>(p@),
            Err(e) => spec_api_config_request(json_len as int, base_url@, opt_view(api_key), model@)
                == Err::<ProviderView, ApiConfigRefusal>(e),
        },
{
    if !api_config_size_ok(json_len) {
        return Err(ApiConfigRefusal::TooLarge);
    }
    if !has_allowed_scheme(base_url.as_str()) {
        return Err(ApiConfigRefusal::BadScheme);
    }
    Ok(custom_provider(base_url, api_key, model))
}

/// The key that the API key dialog's Save button keeps: none when the field is empty, so the
/// dialog stays open; otherwise the text as typed.
pub fn entered_api_key(text: String) -> (r: Option<String>)
    ensures
        match r {
            None => text@.len() == 0,
            Some(k) => text@.len() > 0 && k@ == text@,
        },
{
    if text.as_str().is_empty() {
        None
    } else {
        Some(text)
    }
}

/// What choosing a preset from the menu leads to.
pub enum PresetSwitch {
    /// The preset needs a key and none is known: ask for one.
    AskForKey,
    /// Switch to the preset with this key.
    Apply(Option<String>),
}

/// What choosing a preset leads to, given the key stored for it and the environment's key.
pub fn preset_switch(p: &ApiPreset, stored: &Option<String>, env_key: &Option<String>) -> (r: PresetSwitch)
    ensures
        match r {
            PresetSwitch::AskForKey => p.needs_key && stored is None && env_key is None,
            PresetSwitch::Apply(k) => opt_view(k) == spec_preset_key(*p, *stored, *env_key)
                && !(p.needs_key && stored is None && env_key is None),
        },
{
    let key = preset_key(p, stored, env_key);
    if p.needs_key && key.is_none() {
        PresetSwitch::AskForKey
    } else {
        PresetSwitch::Apply(key)
    }
}

/// What a choice in the transcription menu leads to.
#[derive(Clone, Copy, Debug)]
pub enum ModeChoice {
    /// Nothing: busy, downloading, or already the active provider.
    Ignore,
    /// Switch to a local model.
    Local(LocalModelPreset),
    /// Ask for a custom endpoint.
    Custom,
    /// Switch to a provider preset.
    Preset(ApiPreset),
    /// An identifier that names nothing.
    Unknown,
}

/// What choosing `chosen` in the transcription menu leads to.
pub open spec fn spec_mode_choice(state: State, downloading: bool, chosen: Seq<char>, active: Seq<char>) -> ModeChoice {
    if state != State::Idle || downloading || chosen == active {
        ModeChoice::Ignore
    } else {
        match find_by_key(spec_local_model_presets(), chosen) {
            Some(lm) => ModeChoice::Local(lm),
            None => if chosen == "custom"@ {
                ModeChoice::Custom
            } else {
                match find_by_key(spec_api_presets(), chosen) {
                    Some(p) => ModeChoice::Preset(p),
                    None => ModeChoice::Unknown,
                }
            },
        }
    }
}

/// What choosing `chosen` in the transcription menu leads to.
pub fn mode_choice(state: State, downloading: bool, chosen: &str, active: &str) -> (r: ModeChoice)
    ensures
        r == spec_mode_choice(state, downloading, chosen@, active@),
{
    if state != State::Idle || downloading || str_eq(chosen, active) {
        return ModeChoice::Ignore;
    }
    match find_local_model(chosen) {
        Some(lm) => ModeChoice::Local(lm),
        None => {
            if str_eq(chosen, "custom") {
                ModeChoice::Custom
            } else {
                match find_preset(chosen) {
                    Some(p) => ModeChoice::Preset(p),
                    None => ModeChoice::Unknown,
                }
            }
        },
    }
}

/// A menu choice changes nothing unless the button is idle and no download is under way:
/// while recording, transcribing, synthesizing or speaking, or while downloading, any choice of
/// any provider is ignored.
pub proof fn lemma_menu_choice_only_when_idle(
    state: State,
    downloading: bool,
    chosen: Seq<char>,
    active: Seq<char>,
)
    ensures
        state != State::Idle ==> spec_mode_choice(state, downloading, chosen, active) == ModeChoice::Ignore,
        downloading ==> spec_mode_choice(state, downloading, chosen, active) == ModeChoice::Ignore,
        !(spec_mode_choice(state, downloading, chosen, active) is Ignore) ==> state == State::Idle
            && !downloading && chosen != active,
{
}

/// The local model whose file should be deleted when switching to `target`: the model in use,
/// if local transcription is active with another model.
pub open spec fn spec_model_to_delete(service: TranscriptionService, provider: Seq<char>, target: LocalModelPreset) -> Option<LocalModelPreset> {
    if service == TranscriptionService::Local {
        match find_by_key(spec_local_model_presets(), provider) {
            Some(old) => if old.id@ != target.id@ {
                Some(old)
            } else {
                None
            },
            None => None,
        }
    } else {
        None
    }
}

/// Switching to a local model: the provider afterwards (the API settings are kept for a later
/// switch back) and the model whose file to delete.
pub fn switch_to_local(current: &ActiveProvider, target: &LocalModelPreset) -> (r: (ActiveProvider, Option<LocalModelPreset>))
    ensures
        r.0@ == (ProviderView {
            service: TranscriptionService::Local,
            provider: target.id@,
            ..current@
        }),
        r.1 == spec_model_to_delete(current.service, current.provider@, *target),
{
    let old = if current.service == TranscriptionService::Local {
        match find_local_model(current.provider.as_str()) {
            Some(old) => if str_eq(old.id, target.id) {
                None
            } else {
                Some(old)
            },
            None => None,
        }
    } else {
        None
    };
    let next = ActiveProvider {
        service: TranscriptionService::Local,
        provider: String::from_str(target.id),
        api_base_url: current.api_base_url.clone(),
        api_key: clone_opt(&current.api_key),
        api_model: current.api_model.clone(),
    };
    (next, old)
}

/// After a local model failed to download or load: back to the first preset (Groq), keeping the key.
pub fn fallback_to_default_api(current: &ActiveProvider) -> (r: ActiveProvider)
    ensures
        r@ == (ProviderView {
            service: TranscriptionService::Api,
            provider: spec_api_presets()[0].id@,
            api_base_url: spec_api_presets()[0].base_url@,
            api_model: spec_api_presets()[0].default_model@,
            ..current@
        }),
{
    let presets = crate::config::api_presets();
    let first = presets[0];
    ActiveProvider {
        service: TranscriptionService::Api,
        provider: String::from_str(first.id),
        api_base_url: String::from_str(first.base_url),
        api_key: clone_opt(&current.api_key),
        api_model: String::from_str(first.default_model),
    }
}

/// The local model to load for a provider: its own model, else the first (smallest) one.
pub fn local_model_or_default(provider: &str) -> (r: LocalModelPreset)
    ensures
        r == (match find_by_key(spec_local_model_presets(), provider@) {
            Some(lm) => lm,
            None => spec_local_model_presets()[0],
        }),
{
    match find_local_model(provider) {
        Some(lm) => lm,
        None => crate::config::local_model_presets()[0],
    }
}

} // verus!
