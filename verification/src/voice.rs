//! Decisions about the optional text-to-speech voices: which voice a menu choice loads or
//! downloads, which old voice files to delete, and when a saved voice is loaded at start-up.
use vstd::prelude::*;

use crate::config::{find_by_key, find_piper_voice, spec_piper_voices, PiperVoice, TtsProvider};
use crate::text::{concat2, str_eq, trim, trim_str};

verus! {

/// What a choice in the voice menu leads to.
#[derive(Clone, Copy, Debug)]
pub enum VoiceChoice {
    /// Nothing: a download is running, or the identifier names no voice.
    Ignore,
    /// Turn reading aloud off.
    TurnOff,
    /// Use this voice.
    Use(PiperVoice),
}

/// What choosing `chosen` in the voice menu leads to.
pub open spec fn spec_voice_choice(downloading: bool, chosen: Seq<char>) -> VoiceChoice {
    if downloading {
        VoiceChoice::Ignore
    } else if chosen == "none"@ {
        VoiceChoice::TurnOff
    } else {
        match find_by_key(spec_piper_voices(), chosen) {
            Some(v) => VoiceChoice::Use(v),
            None => VoiceChoice::Ignore,
        }
    }
}

/// What choosing `chosen` in the voice menu leads to.
pub fn voice_choice(downloading: bool, chosen: &str) -> (r: VoiceChoice)
    ensures
        r == spec_voice_choice(downloading, chosen@),
{
    if downloading {
        VoiceChoice::Ignore
    } else if str_eq(chosen, "none") {
        VoiceChoice::TurnOff
    } else {
        match find_piper_voice(chosen) {
            Some(v) => VoiceChoice::Use(v),
            None => VoiceChoice::Ignore,
        }
    }
}

/// How a chosen voice is brought into use.
#[derive(Clone, Copy, PartialEq, Eq, Debug, Structural)]
pub enum VoiceSetup {
    /// The engine and the voice files are there: load them.
    Load,
    /// Download what is missing; the engine's environment is set up first unless it is there.
    Download { skip_venv: bool },
}

/// How a chosen voice is brought into use, given what is already installed.
pub fn voice_setup(has_venv: bool, has_voice: bool) -> (r: VoiceSetup)
    ensures
        r == (if has_venv && has_voice {
            VoiceSetup::Load
        } else {
            VoiceSetup::Download { skip_venv: has_venv }
        }),
{
    if has_venv && has_voice {
        VoiceSetup::Load
    } else {
        VoiceSetup::Download { skip_venv: has_venv }
    }
}

/// Whether the files of the previous voice are deleted when `new_voice` comes into use: only
/// when there was a previous voice and it is another one.
pub open spec fn spec_delete_old_voice(old_voice: Seq<char>, new_voice: Seq<char>) -> bool {
    old_voice != new_voice && old_voice.len() != 0 && old_voice != "none"@
}

/// Whether the files of the previous voice are deleted when `new_voice` comes into use.
pub fn delete_old_voice(old_voice: &str, new_voice: &str) -> (r: bool)
    ensures
        r == spec_delete_old_voice(old_voice@, new_voice@),
{
    !str_eq(old_voice, new_voice) && !old_voice.is_empty() && !str_eq(old_voice, "none")
}

/// Whether the voice saved last time is loaded at start-up: only if reading aloud was on and
/// both the engine and that voice's files are installed.
pub fn load_saved_voice(tts_setting: &Option<String>, has_venv: bool, has_voice: bool) -> (r: bool)
    ensures
        r == (match tts_setting {
            Some(s) => s@ == "piper"@,
            None => false,
        } && has_venv && has_voice),
{
    let piper = match tts_setting {
        Some(s) => str_eq(s.as_str(), "piper"),
        None => false,
    };
    piper && has_venv && has_voice
}

/// The first line of the voice download dialog.
pub fn download_dialog_label(voice: &PiperVoice, skip_venv: bool) -> (r: String)
    ensures
        r@ == (if skip_venv {
            "Downloading voice: "@ + voice.label@ + "..."@
        } else {
            "Setting up Piper TTS engine..."@
        }),
{
    if skip_venv {
        let mut r = concat2("Downloading voice: ", voice.label);
        r.append("...");
        r
    } else {
        String::from_str("Setting up Piper TTS engine...")
    }
}

/// Whether clipboard text is worth reading aloud: something besides whitespace.
pub fn worth_reading(text: &str) -> (r: bool)
    ensures
        r == (trim(text@).len() > 0),
{
    !trim_str(text).is_empty()
}

/// The state of the voice menu: the voice in use, or `none` when reading aloud is off.
pub fn voice_menu_state(provider: TtsProvider, voice: &str) -> (r: String)
    ensures
        r@ == (if provider == TtsProvider::Piper {
            voice@
        } else {
            "none"@
        }),
{
    if provider == TtsProvider::Piper {
        String::from_str(voice)
    } else {
        String::from_str("none")
    }
}

/// A step of reading text aloud.
#[derive(Clone, Copy, PartialEq, Eq, Debug, Structural)]
pub enum SpeechEvent {
    /// Reading was asked for and the text handed to the engine.
    Requested,
    /// The engine produced the audio; playback starts.
    Synthesized,
    /// The engine failed, or went away without an answer.
    SynthesisFailed,
    /// Playback finished or was stopped.
    PlaybackEnded,
}

/// The button's state after a step of reading aloud.
pub fn speech_state_after(event: SpeechEvent) -> (r: crate::session::State)
    ensures
        r == (match event {
            SpeechEvent::Requested => crate::session::State::Synthesizing,
            SpeechEvent::Synthesized => crate::session::State::Speaking,
            SpeechEvent::SynthesisFailed => crate::session::State::Idle,
            SpeechEvent::PlaybackEnded => crate::session::State::Idle,
        }),
{
    match event {
        SpeechEvent::Requested => crate::session::State::Synthesizing,
        SpeechEvent::Synthesized => crate::session::State::Speaking,
        SpeechEvent::SynthesisFailed => crate::session::State::Idle,
        SpeechEvent::PlaybackEnded => crate::session::State::Idle,
    }
}

} // verus!
