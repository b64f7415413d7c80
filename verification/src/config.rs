//! Provider presets, local model and voice tables, and the settings read at start-up.
use vstd::prelude::*;

use crate::text::{
    all_ascii, ascii_lower_code, ascii_lowercase, concat2, eq_ignore_ascii_case, has_prefix,
    has_suffix, is_whitespace, str_eq, str_eq_ignore_ascii_case, trim, trim_end, trim_start,
    trim_str,
};

verus! {

/// The Unicode lower-case mapping of a character sequence, as `str::to_lowercase` computes it.
pub uninterp spec fn unicode_lowercase(s: Seq<char>) -> Seq<char>;

/// The lower-case form of `s`: for ASCII text the ASCII mapping, otherwise the Unicode one.
pub open spec fn lowercase(s: Seq<char>) -> Seq<char> {
    if all_ascii(s) {
        ascii_lowercase(s)
    } else {
        unicode_lowercase(s)
    }
}

/// Calls `str::to_lowercase`. Claimed: the result is `unicode_lowercase` of the argument, except
/// that for an argument made of ASCII characters only it is the argument with `A`..=`Z` mapped to
/// `a`..=`z` (the Unicode lower-case mapping of ASCII text).
#[verifier::external_body]
fn to_lowercase(s: &str) -> (r: String)
    ensures
        r@ == (if all_ascii(s@) {
            ascii_lowercase(s@)
        } else {
            unicode_lowercase(s@)
        }),
{
    s.to_lowercase()
}

/// A table entry that is looked up by a short identifier.
pub trait Keyed: Copy {
    spec fn key(&self) -> Seq<char>;

    fn key_str(&self) -> (r: &'static str)
        ensures
            r@ == self.key(),
    ;
}

/// The first entry of `s` whose identifier is `k`.
pub open spec fn find_by_key<T: Keyed>(s: Seq<T>, k: Seq<char>) -> Option<T>
    decreases s.len(),
{
    if s.len() == 0 {
        None
    } else if s[0].key() == k {
        Some(s[0])
    } else {
        find_by_key(s.drop_first(), k)
    }
}

/// The first entry of `items` whose identifier is `k`.
pub fn find_in<T: Keyed>(items: &[T], k: &str) -> (r: Option<T>)
    ensures
        r == find_by_key(items@, k@),
{
    let n = items.len();
    let mut i: usize = 0;
    assert(items@.skip(0) =~= items@);
    while i < n
        invariant
            n == items@.len(),
            i <= n,
            find_by_key(items@, k@) == find_by_key(items@.skip(i as int), k@),
        decreases n - i,
    {
        let item = items[i];
        assert(items@.skip(i as int)[0] == items@[i as int]);
        if str_eq(item.key_str(), k) {
            return Some(item);
        }
        assert(items@.skip(i as int).drop_first() =~= items@.skip(i + 1));
        i = i + 1;
    }
    None
}

/// When `k` is the identifier of the entry at `i` and no earlier entry has it, that entry is found.
pub proof fn lemma_find_by_key_at<T: Keyed>(s: Seq<T>, i: int)
    requires
        0 <= i < s.len(),
        forall|j: int| 0 <= j < i ==> (#[trigger] s[j]).key() != s[i].key(),
    ensures
        find_by_key(s, s[i].key()) == Some(s[i]),
    decreases i,
{
    if i > 0 {
        assert(s[0].key() != s[i].key());
        let t = s.drop_first();
        assert(t[i - 1] == s[i]);
        assert forall|j: int| 0 <= j < i - 1 implies (#[trigger] t[j]).key() != t[i - 1].key() by {
            assert(t[j] == s[j + 1]);
        }
        lemma_find_by_key_at(t, i - 1);
    }
}

/// An identifier that no entry has finds nothing; one that an entry has finds an entry with it.
pub proof fn lemma_find_by_key_some<T: Keyed>(s: Seq<T>, k: Seq<char>)
    ensures
        find_by_key(s, k) is None <==> (forall|j: int| 0 <= j < s.len() ==> (#[trigger] s[j]).key() != k),
        find_by_key(s, k) matches Some(e) ==> e.key() == k && s.contains(e),
    decreases s.len(),
{
    if s.len() > 0 {
        let t = s.drop_first();
        lemma_find_by_key_some(t, k);
        if s[0].key() != k {
            assert forall|j: int| 0 <= j < t.len() implies ((#[trigger] t[j]).key() != k) == (s[j + 1].key() != k) by {
                assert(t[j] == s[j + 1]);
            }
            if find_by_key(t, k) is None {
                assert forall|j: int| 0 <= j < s.len() implies (#[trigger] s[j]).key() != k by {
                    if j > 0 {
                        assert(t[j - 1] == s[j]);
                    }
                }
            } else {
                let e = find_by_key(t, k)->0;
                let w = choose|j: int| 0 <= j < t.len() && t[j] == e;
                assert(s[w + 1] == e);
                assert(t[w].key() == k);
            }
        } else {
            assert(s.contains(s[0]));
        }
    }
}

/// Active transcription backend.
#[derive(Clone, Copy, PartialEq, Eq, Debug, Structural)]
pub enum TranscriptionService {
    Api,
    Local,
}

/// Global mouse button used to toggle recording on Windows.
#[derive(Clone, Copy, PartialEq, Eq, Debug, Structural)]
pub enum MouseHotkey {
    Disabled,
    Middle,
    XButton1,
    XButton2,
}

impl MouseHotkey {
    /// The hotkey that a lower-case name denotes.
    pub open spec fn spec_from_name(n: Seq<char>) -> Option<MouseHotkey> {
        if n == "disabled"@ || n == "off"@ || n == "none"@ {
            Some(MouseHotkey::Disabled)
        } else if n == "middle"@ || n == "mbutton"@ || n == "mouse3"@ {
            Some(MouseHotkey::Middle)
        } else if n == "xbutton1"@ || n == "mouse4"@ || n == "button4"@ {
            Some(MouseHotkey::XButton1)
        } else if n == "xbutton2"@ || n == "mouse5"@ || n == "button5"@ {
            Some(MouseHotkey::XButton2)
        } else {
            None
        }
    }

    /// What `parse` returns: the name, trimmed and lower-cased, looked up.
    pub open spec fn spec_parse(value: Seq<char>) -> Option<MouseHotkey> {
        Self::spec_from_name(lowercase(trim(value)))
    }

    /// The canonical name of a hotkey.
    pub open spec fn spec_name(self) -> Seq<char> {
        match self {
            MouseHotkey::Disabled => "disabled"@,
            MouseHotkey::Middle => "middle"@,
            MouseHotkey::XButton1 => "xbutton1"@,
            MouseHotkey::XButton2 => "xbutton2"@,
        }
    }

    /// Looks up an already lower-cased hotkey name.
    pub fn from_name(n: &str) -> (r: Option<MouseHotkey>)
        ensures
            r == Self::spec_from_name(n@),
    {
        if str_eq(n, "disabled") || str_eq(n, "off") || str_eq(n, "none") {
            Some(MouseHotkey::Disabled)
        } else if str_eq(n, "middle") || str_eq(n, "mbutton") || str_eq(n, "mouse3") {
            Some(MouseHotkey::Middle)
        } else if str_eq(n, "xbutton1") || str_eq(n, "mouse4") || str_eq(n, "button4") {
            Some(MouseHotkey::XButton1)
        } else if str_eq(n, "xbutton2") || str_eq(n, "mouse5") || str_eq(n, "button5") {
            Some(MouseHotkey::XButton2)
        } else {
            None
        }
    }

    /// Parses a hotkey name, ignoring surrounding whitespace and letter case.
    pub fn parse(value: &str) -> (r: Option<MouseHotkey>)
        ensures
            r == Self::spec_parse(value@),
    {
        let lower = to_lowercase(trim_str(value));
        Self::from_name(lower.as_str())
    }

    /// The canonical name of the hotkey.
    pub fn as_str(self) -> (r: &'static str)
        ensures
            r@ == self.spec_name(),
    {
        match self {
            MouseHotkey::Disabled => "disabled",
            MouseHotkey::Middle => "middle",
            MouseHotkey::XButton1 => "xbutton1",
            MouseHotkey::XButton2 => "xbutton2",
        }
    }
}

/// Language that the local whisper model is told to transcribe.
#[derive(Clone, Copy, PartialEq, Eq, Debug, Structural)]
pub enum WhisperLanguage {
    Ru,
    En,
    Kk,
    Auto,
}

impl Default for WhisperLanguage {
    fn default() -> (r: Self)
        ensures
            r == WhisperLanguage::Ru,
    {
        WhisperLanguage::Ru
    }
}

impl WhisperLanguage {
    /// The language that a lower-case code denotes.
    pub open spec fn spec_from_code(n: Seq<char>) -> Option<WhisperLanguage> {
        if n == "ru"@ {
            Some(WhisperLanguage::Ru)
        } else if n == "en"@ {
            Some(WhisperLanguage::En)
        } else if n == "kk"@ {
            Some(WhisperLanguage::Kk)
        } else if n == "auto"@ {
            Some(WhisperLanguage::Auto)
        } else {
            None
        }
    }

    /// What `parse` returns: the code, trimmed and lower-cased, looked up.
    pub open spec fn spec_parse(value: Seq<char>) -> Option<WhisperLanguage> {
        Self::spec_from_code(lowercase(trim(value)))
    }

    /// The code handed to whisper; `Auto` hands none and lets whisper detect the language.
    pub open spec fn spec_code(self) -> Option<Seq<char>> {
        match self {
            WhisperLanguage::Ru => Some("ru"@),
            WhisperLanguage::En => Some("en"@),
            WhisperLanguage::Kk => Some("kk"@),
            WhisperLanguage::Auto => None,
        }
    }

    /// Looks up an already lower-cased language code.
    pub fn from_code(n: &str) -> (r: Option<WhisperLanguage>)
        ensures
            r == Self::spec_from_code(n@),
    {
        if str_eq(n, "ru") {
            Some(WhisperLanguage::Ru)
        } else if str_eq(n, "en") {
            Some(WhisperLanguage::En)
        } else if str_eq(n, "kk") {
            Some(WhisperLanguage::Kk)
        } else if str_eq(n, "auto") {
            Some(WhisperLanguage::Auto)
        } else {
            None
        }
    }

    /// Parses a language code, ignoring surrounding whitespace and letter case.
    pub fn parse(value: &str) -> (r: Option<WhisperLanguage>)
        ensures
            r == Self::spec_parse(value@),
    {
        let lower = to_lowercase(trim_str(value));
        Self::from_code(lower.as_str())
    }

    /// Parses a language code, falling back to the default language.
    pub fn parse_or_default(value: &str) -> (r: WhisperLanguage)
        ensures
            r == (match Self::spec_parse(value@) {
                Some(l) => l,
                None => WhisperLanguage::Ru,
            }),
    {
        match Self::parse(value) {
            Some(l) => l,
            None => WhisperLanguage::default(),
        }
    }

    /// The code handed to whisper, or `None` for automatic detection.
    pub fn whisper_code(self) -> (r: Option<&'static str>)
        ensures
            r is Some <==> self.spec_code() is Some,
            r matches Some(c) ==> self.spec_code() == Some(c@),
    {
        match self {
            WhisperLanguage::Ru => Some("ru"),
            WhisperLanguage::En => Some("en"),
            WhisperLanguage::Kk => Some("kk"),
            WhisperLanguage::Auto => None,
        }
    }
}


/// Built-in API provider configuration.
#[derive(Clone, Copy, Debug)]
pub struct ApiPreset {
    pub id: &'static str,
    pub label: &'static str,
    pub base_url: &'static str,
    pub default_model: &'static str,
    pub needs_key: bool,
}

impl Keyed for ApiPreset {
    open spec fn key(&self) -> Seq<char> {
        self.id@
    }

    fn key_str(&self) -> (r: &'static str) {
        self.id
    }
}

/// The pre-configured API providers, in menu order.
pub open spec fn spec_api_presets() -> Seq<ApiPreset> {
    seq![
        ApiPreset {
            id: "groq",
            label: "Groq",
            base_url: "https://api.groq.com/openai/v1",
            default_model: "whisper-large-v3-turbo",
            needs_key: true,
        },
        ApiPreset {
            id: "ollama",
            label: "Ollama",
            base_url: "http://localhost:11434/v1",
            default_model: "whisper",
            needs_key: false,
        },
        ApiPreset {
            id: "openrouter",
            label: "OpenRouter",
            base_url: "https://openrouter.ai/api/v1",
            default_model: "openai/whisper-1",
            needs_key: true,
        },
        ApiPreset {
            id: "lmstudio",
            label: "LM Studio",
            base_url: "http://localhost:1234/v1",
            default_model: "whisper-1",
            needs_key: false,
        },
    ]
}

/// Pre-configured API providers (Groq, Ollama, OpenRouter, LM Studio).
pub fn api_presets() -> (r: &'static [ApiPreset])
    ensures
        r@ == spec_api_presets(),
{
    &[
        ApiPreset {
            id: "groq",
            label: "Groq",
            base_url: "https://api.groq.com/openai/v1",
            default_model: "whisper-large-v3-turbo",
            needs_key: true,
        },
        ApiPreset {
            id: "ollama",
            label: "Ollama",
            base_url: "http://localhost:11434/v1",
            default_model: "whisper",
            needs_key: false,
        },
        ApiPreset {
            id: "openrouter",
            label: "OpenRouter",
            base_url: "https://openrouter.ai/api/v1",
            default_model: "openai/whisper-1",
            needs_key: true,
        },
        ApiPreset {
            id: "lmstudio",
            label: "LM Studio",
            base_url: "http://localhost:1234/v1",
            default_model: "whisper-1",
            needs_key: false,
        },
    ]
}

/// Look up an API preset by its short identifier.
pub fn find_preset(id: &str) -> (r: Option<ApiPreset>)
    ensures
        r == find_by_key(spec_api_presets(), id@),
{
    find_in(api_presets(), id)
}

/// Every provider preset is found by its own identifier: the identifiers are distinct.
pub proof fn lemma_api_preset_found_by_id(i: int)
    requires
        0 <= i < spec_api_presets().len(),
    ensures
        find_by_key(spec_api_presets(), spec_api_presets()[i].id@) == Some(spec_api_presets()[i]),
{
    reveal_strlit("groq");
    reveal_strlit("ollama");
    reveal_strlit("openrouter");
    reveal_strlit("lmstudio");
    let s = spec_api_presets();
    assert forall|j: int| 0 <= j < i implies (#[trigger] s[j]).key() != s[i].key() by {
        assert(s[j].key().len() != s[i].key().len());
    }
    lemma_find_by_key_at(s, i);
}

/// Built-in local whisper model preset.
#[derive(Clone, Copy, Debug)]
pub struct LocalModelPreset {
    pub id: &'static str,
    pub label: &'static str,
    pub file_name: &'static str,
    pub size_label: &'static str,
}

impl Keyed for LocalModelPreset {
    open spec fn key(&self) -> Seq<char> {
        self.id@
    }

    fn key_str(&self) -> (r: &'static str) {
        self.id
    }
}

/// The local whisper model sizes (Tiny through Medium), all multilingual.
pub open spec fn spec_local_model_presets() -> Seq<LocalModelPreset> {
    seq![
        LocalModelPreset {
            id: "local-tiny",
            label: "Tiny Multilingual",
            file_name: "ggml-tiny.bin",
            size_label: "~78 MB",
        },
        LocalModelPreset {
            id: "local-base",
            label: "Base Multilingual",
            file_name: "ggml-base.bin",
            size_label: "~148 MB",
        },
        LocalModelPreset {
            id: "local-small",
            label: "Small Multilingual",
            file_name: "ggml-small.bin",
            size_label: "~488 MB",
        },
        LocalModelPreset {
            id: "local-medium",
            label: "Medium Multilingual",
            file_name: "ggml-medium.bin",
            size_label: "~1.53 GB",
        },
    ]
}

/// Available local whisper model sizes (Tiny through Medium).
pub fn local_model_presets() -> (r: &'static [LocalModelPreset])
    ensures
        r@ == spec_local_model_presets(),
{
    &[
        LocalModelPreset {
            id: "local-tiny",
            label: "Tiny Multilingual",
            file_name: "ggml-tiny.bin",
            size_label: "~78 MB",
        },
        LocalModelPreset {
            id: "local-base",
            label: "Base Multilingual",
            file_name: "ggml-base.bin",
            size_label: "~148 MB",
        },
        LocalModelPreset {
            id: "local-small",
            label: "Small Multilingual",
            file_name: "ggml-small.bin",
            size_label: "~488 MB",
        },
        LocalModelPreset {
            id: "local-medium",
            label: "Medium Multilingual",
            file_name: "ggml-medium.bin",
            size_label: "~1.53 GB",
        },
    ]
}

/// Default local model preset ID.
pub const DEFAULT_LOCAL_MODEL: &'static str = "local-tiny";

/// Look up a local model preset by its short identifier.
pub fn find_local_model(id: &str) -> (r: Option<LocalModelPreset>)
    ensures
        r == find_by_key(spec_local_model_presets(), id@),
{
    find_in(local_model_presets(), id)
}

/// Every local model preset is found by its own identifier: the identifiers are distinct.
pub proof fn lemma_local_model_found_by_id(i: int)
    requires
        0 <= i < spec_local_model_presets().len(),
    ensures
        find_by_key(spec_local_model_presets(), spec_local_model_presets()[i].id@) == Some(
            spec_local_model_presets()[i],
        ),
{
    reveal_strlit("local-tiny");
    reveal_strlit("local-base");
    reveal_strlit("local-small");
    reveal_strlit("local-medium");
    let s = spec_local_model_presets();
    assert forall|j: int| 0 <= j < i implies (#[trigger] s[j]).key() != s[i].key() by {
        if s[j].key().len() == s[i].key().len() {
            assert(s[j].key()[6] != s[i].key()[6]);
        }
    }
    lemma_find_by_key_at(s, i);
}

/// The default local model is one of the presets: the first one.
pub proof fn lemma_default_local_model_is_preset()
    ensures
        find_by_key(spec_local_model_presets(), DEFAULT_LOCAL_MODEL@) == Some(
            spec_local_model_presets()[0],
        ),
{
    lemma_local_model_found_by_id(0);
}

/// The download address of a whisper model file.
pub open spec fn spec_model_url(file_name: Seq<char>) -> Seq<char> {
    "https://huggingface.co/ggerganov/whisper.cpp/resolve/main/"@ + file_name
}

/// Build the HuggingFace download URL for a whisper model file.
pub fn model_url(file_name: &str) -> (r: String)
    ensures
        r@ == spec_model_url(file_name@),
{
    concat2("https://huggingface.co/ggerganov/whisper.cpp/resolve/main/", file_name)
}

/// Active TTS provider.
#[derive(Clone, Copy, PartialEq, Eq, Debug, Structural)]
pub enum TtsProvider {
    Disabled,
    Piper,
}

/// A Piper voice preset.
#[derive(Clone, Copy, Debug)]
pub struct PiperVoice {
    pub id: &'static str,
    pub label: &'static str,
    pub locale: &'static str,
    pub name: &'static str,
    pub quality: &'static str,
}

impl Keyed for PiperVoice {
    open spec fn key(&self) -> Seq<char> {
        self.id@
    }

    fn key_str(&self) -> (r: &'static str) {
        self.id
    }
}

impl PiperVoice {
    /// The address of the voice's ONNX model file.
    pub open spec fn spec_onnx_url(self) -> Seq<char> {
        "https://huggingface.co/rhasspy/piper-voices/resolve/main/en/"@ + self.locale@ + "/"@
            + self.name@ + "/"@ + self.quality@ + "/"@ + self.locale@ + "-"@ + self.name@ + "-"@
            + self.quality@ + ".onnx"@
    }

    /// HuggingFace URL for the ONNX model file.
    pub fn onnx_url(&self) -> (r: String)
        ensures
            r@ == self.spec_onnx_url(),
    {
        let mut r = String::from_str("https://huggingface.co/rhasspy/piper-voices/resolve/main/en/");
        r.append(self.locale);
        r.append("/");
        r.append(self.name);
        r.append("/");
        r.append(self.quality);
        r.append("/");
        r.append(self.locale);
        r.append("-");
        r.append(self.name);
        r.append("-");
        r.append(self.quality);
        r.append(".onnx");
        r
    }

    /// HuggingFace URL for the ONNX config file: the model's address with `.json` appended.
    pub fn config_url(&self) -> (r: String)
        ensures
            r@ == self.spec_onnx_url() + ".json"@,
    {
        let mut r = self.onnx_url();
        r.append(".json");
        r
    }
}

/// The Piper voices offered, in menu order.
pub open spec fn spec_piper_voices() -> Seq<PiperVoice> {
    seq![
        PiperVoice {
            id: "amy",
            label: "Amy (US Female)",
            locale: "en_US",
            name: "amy",
            quality: "medium",
        },
        PiperVoice {
            id: "lessac",
            label: "Lessac (US Female)",
            locale: "en_US",
            name: "lessac",
            quality: "medium",
        },
        PiperVoice {
            id: "ryan",
            label: "Ryan (US Male)",
            locale: "en_US",
            name: "ryan",
            quality: "medium",
        },
        PiperVoice {
            id: "kristin",
            label: "Kristin (US Female)",
            locale: "en_US",
            name: "kristin",
            quality: "medium",
        },
        PiperVoice {
            id: "joe",
            label: "Joe (US Male)",
            locale: "en_US",
            name: "joe",
            quality: "medium",
        },
        PiperVoice {
            id: "cori",
            label: "Cori (UK Female)",
            locale: "en_GB",
            name: "cori",
            quality: "medium",
        },
    ]
}

/// Available Piper voice presets.
pub fn piper_voices() -> (r: &'static [PiperVoice])
    ensures
        r@ == spec_piper_voices(),
{
    &[
        PiperVoice {
            id: "amy",
            label: "Amy (US Female)",
            locale: "en_US",
            name: "amy",
            quality: "medium",
        },
        PiperVoice {
            id: "lessac",
            label: "Lessac (US Female)",
            locale: "en_US",
            name: "lessac",
            quality: "medium",
        },
        PiperVoice {
            id: "ryan",
            label: "Ryan (US Male)",
            locale: "en_US",
            name: "ryan",
            quality: "medium",
        },
        PiperVoice {
            id: "kristin",
            label: "Kristin (US Female)",
            locale: "en_US",
            name: "kristin",
            quality: "medium",
        },
        PiperVoice {
            id: "joe",
            label: "Joe (US Male)",
            locale: "en_US",
            name: "joe",
            quality: "medium",
        },
        PiperVoice {
            id: "cori",
            label: "Cori (UK Female)",
            locale: "en_GB",
            name: "cori",
            quality: "medium",
        },
    ]
}

/// Default voice ID.
pub const DEFAULT_PIPER_VOICE: &'static str = "amy";

/// Look up a Piper voice preset by ID.
pub fn find_piper_voice(id: &str) -> (r: Option<PiperVoice>)
    ensures
        r == find_by_key(spec_piper_voices(), id@),
{
    find_in(piper_voices(), id)
}

/// Every voice is found by its own identifier: the identifiers are distinct.
pub proof fn lemma_piper_voice_found_by_id(i: int)
    requires
        0 <= i < spec_piper_voices().len(),
    ensures
        find_by_key(spec_piper_voices(), spec_piper_voices()[i].id@) == Some(spec_piper_voices()[i]),
{
    reveal_strlit("amy");
    reveal_strlit("lessac");
    reveal_strlit("ryan");
    reveal_strlit("kristin");
    reveal_strlit("joe");
    reveal_strlit("cori");
    let s = spec_piper_voices();
    assert forall|j: int| 0 <= j < i implies (#[trigger] s[j]).key() != s[i].key() by {
        if s[j].key().len() == s[i].key().len() {
            assert(s[j].key()[0] != s[i].key()[0]);
        }
    }
    lemma_find_by_key_at(s, i);
}

/// The default voice is one of the presets: the first one.
pub proof fn lemma_default_piper_voice_is_preset()
    ensures
        find_by_key(spec_piper_voices(), DEFAULT_PIPER_VOICE@) == Some(spec_piper_voices()[0]),
{
    lemma_piper_voice_found_by_id(0);
}

/// A name made of ASCII letters and digits is its own trimmed lower-case form.
pub proof fn lemma_plain_name_normal(s: Seq<char>)
    requires
        s.len() > 0,
        forall|i: int|
            0 <= i < s.len() ==> {
                let x = (#[trigger] s[i]) as u32;
                (97 <= x <= 122) || (48 <= x <= 57)
            },
    ensures
        lowercase(trim(s)) == s,
{
    assert(!is_whitespace(s[0]));
    assert(trim_start(s) == s);
    assert(!is_whitespace(s.last()));
    assert(trim_end(s) == s);
    assert(all_ascii(s));
    assert(ascii_lowercase(s) =~= s) by {
        assert forall|i: int| 0 <= i < s.len() implies ascii_lowercase(s)[i] == s[i] by {
            let c = s[i];
            assert(ascii_lowercase(s)[i] == (ascii_lower_code(c) as char));
            assert(ascii_lower_code(c) == c as u32);
            vstd::utf8::char_u32_cast(c, c as u32);
        }
    }
}

/// Parsing the canonical name of a hotkey gives that hotkey back.
pub proof fn lemma_hotkey_name_roundtrip(h: MouseHotkey)
    ensures
        MouseHotkey::spec_parse(h.spec_name()) == Some(h),
{
    reveal_strlit("disabled");
    reveal_strlit("off");
    reveal_strlit("none");
    reveal_strlit("middle");
    reveal_strlit("mbutton");
    reveal_strlit("mouse3");
    reveal_strlit("xbutton1");
    reveal_strlit("mouse4");
    reveal_strlit("button4");
    reveal_strlit("xbutton2");
    reveal_strlit("mouse5");
    reveal_strlit("button5");
    lemma_plain_name_normal(h.spec_name());
    match h {
        MouseHotkey::Disabled => {},
        MouseHotkey::Middle => {
            assert("middle"@ != "disabled"@);
            assert("middle"@[0] != "mouse3"@[1]);
        },
        MouseHotkey::XButton1 => {
            assert("xbutton1"@[0] != "disabled"@[0]);
            assert("xbutton1"@[7] != "xbutton2"@[7]);
        },
        MouseHotkey::XButton2 => {
            assert("xbutton2"@[0] != "disabled"@[0]);
            assert("xbutton2"@[7] != "xbutton1"@[7]);
        },
    }
}

/// Parsing the whisper code of a language gives that language back.
pub proof fn lemma_language_code_roundtrip(l: WhisperLanguage)
    requires
        l.spec_code() is Some,
    ensures
        WhisperLanguage::spec_parse(l.spec_code()->0) == Some(l),
{
    reveal_strlit("ru");
    reveal_strlit("en");
    reveal_strlit("kk");
    reveal_strlit("auto");
    lemma_plain_name_normal(l.spec_code()->0);
    assert("en"@[0] != "ru"@[0]);
    assert("kk"@[0] != "ru"@[0]);
    assert("kk"@[0] != "en"@[0]);
}

/// Words that turn an on/off setting on: `true`, `yes`, `on` in any ASCII case, or `1`.
pub open spec fn spec_parse_bool(v: Seq<char>) -> bool {
    ||| eq_ignore_ascii_case(v, "true"@)
    ||| eq_ignore_ascii_case(v, "yes"@)
    ||| eq_ignore_ascii_case(v, "on"@)
    ||| v == "1"@
}

/// Reads an on/off setting that is off unless it is one of the words that turn it on.
pub fn parse_bool(value: &str) -> (r: bool)
    ensures
        r == spec_parse_bool(value@),
{
    str_eq_ignore_ascii_case(value, "true") || str_eq_ignore_ascii_case(value, "yes")
        || str_eq_ignore_ascii_case(value, "on") || str_eq(value, "1")
}

/// Words that turn auto-paste off: `false`, `off`, `no` in any ASCII case, or `0`.
pub open spec fn spec_is_false_like(v: Seq<char>) -> bool {
    ||| eq_ignore_ascii_case(v, "false"@)
    ||| eq_ignore_ascii_case(v, "off"@)
    ||| eq_ignore_ascii_case(v, "no"@)
    ||| v == "0"@
}

/// What `parse_auto_paste` returns: on unless the trimmed value turns it off.
pub open spec fn spec_parse_auto_paste(v: Seq<char>) -> bool {
    !spec_is_false_like(trim(v))
}

/// Reads the auto-paste setting: on unless the trimmed value is one of the words that turn it off.
pub fn parse_auto_paste(value: &str) -> (r: bool)
    ensures
        r == spec_parse_auto_paste(value@),
{
    let value = trim_str(value);
    !(str_eq_ignore_ascii_case(value, "false") || str_eq_ignore_ascii_case(value, "off")
        || str_eq_ignore_ascii_case(value, "no") || str_eq(value, "0"))
}

/// Auto-paste is on by default only where it is implemented, on Windows.
pub fn default_auto_paste_after_transcribe(on_windows: bool) -> (r: bool)
    ensures
        r == on_windows,
{
    on_windows
}

/// A file system path; the library only carries it from the start-up code to its users.
#[verifier::external_type_specification]
#[verifier::external_body]
pub struct ExPathBuf(std::path::PathBuf);

/// The settings read from the environment (and `.env`) at start-up, one per variable,
/// `None` where the variable is unset or not valid Unicode.
pub struct EnvSettings {
    /// `PRIMARY_TRANSCRIPTION_SERVICE`
    pub primary_transcription_service: Option<String>,
    /// `API_BASE_URL`
    pub api_base_url: Option<String>,
    /// `API_KEY`
    pub api_key: Option<String>,
    /// `GROQ_API_KEY`, the older name of `API_KEY`
    pub groq_api_key: Option<String>,
    /// `API_MODEL`
    pub api_model: Option<String>,
    /// `GROQ_STT_MODEL`, the older name of `API_MODEL`
    pub groq_stt_model: Option<String>,
    /// `SOUND_NOTIFICATION_ON_COMPLETION`
    pub sound_notification: Option<String>,
    /// `MOUSE_HOTKEY`, or else `mouse_hotkey`
    pub mouse_hotkey: Option<String>,
    /// `CONSUME_MOUSE_HOTKEY`, or else `consume_mouse_hotkey`
    pub consume_mouse_hotkey: Option<String>,
    /// `AUTO_PASTE_AFTER_TRANSCRIBE`, or else `auto_paste_after_transcribe`
    pub auto_paste_after_transcribe: Option<String>,
    /// `WHISPER_LANGUAGE`
    pub whisper_language: Option<String>,
    /// `POST_PROCESSING`
    pub post_processing: Option<String>,
    /// `POST_PROCESSING_BASE_URL`
    pub post_processing_base_url: Option<String>,
    /// `POST_PROCESSING_API_KEY`
    pub post_processing_api_key: Option<String>,
    /// `POST_PROCESSING_MODEL`
    pub post_processing_model: Option<String>,
    /// `POST_PROCESSING_STYLE`
    pub post_processing_style: Option<String>,
}

/// Base URL used when `API_BASE_URL` is not set (Groq).
pub const DEFAULT_API_BASE_URL: &'static str = "https://api.groq.com/openai/v1";

/// Transcription model used when `API_MODEL` is not set.
pub const DEFAULT_API_MODEL: &'static str = "whisper-large-v3-turbo";

/// Chat model used for post-processing when none is set.
pub const DEFAULT_POST_PROCESSING_MODEL: &'static str = "llama-3.3-70b-versatile";

/// Post-processing style used when none is set.
pub const DEFAULT_POST_PROCESSING_STYLE: &'static str = "structured";

/// Application configuration loaded from environment and `.env` file.
pub struct Config {
    pub transcription_service: TranscriptionService,
    pub api_base_url: String,
    pub api_key: Option<String>,
    pub api_model: String,
    pub db_path: std::path::PathBuf,
    pub models_dir: std::path::PathBuf,
    pub sound_notification: bool,
    pub mouse_hotkey: MouseHotkey,
    pub consume_mouse_hotkey: bool,
    pub auto_paste_after_transcribe: bool,
    pub whisper_language: WhisperLanguage,
    pub post_processing: bool,
    pub post_processing_base_url: String,
    pub post_processing_api_key: Option<String>,
    pub post_processing_model: String,
    pub post_processing_style: String,
}

/// The view of an optional string.
pub open spec fn opt_view(o: Option<String>) -> Option<Seq<char>> {
    match o {
        Some(s) => Some(s@),
        None => None,
    }
}

/// The value of a setting, or a default where it is unset.
pub open spec fn or_default(o: Option<String>, d: Seq<char>) -> Seq<char> {
    match o {
        Some(s) => s@,
        None => d,
    }
}

/// The first of two settings that is set.
pub open spec fn first_set(a: Option<String>, b: Option<String>) -> Option<Seq<char>> {
    match a {
        Some(s) => Some(s@),
        None => opt_view(b),
    }
}

/// The backend named by `PRIMARY_TRANSCRIPTION_SERVICE`: local only for `local` in any case.
pub open spec fn spec_service(v: Option<String>) -> TranscriptionService {
    match v {
        Some(s) => if lowercase(s@) == "local"@ {
            TranscriptionService::Local
        } else {
            TranscriptionService::Api
        },
        None => TranscriptionService::Api,
    }
}

/// Whether `SOUND_NOTIFICATION_ON_COMPLETION` asks for a sound: `true` in any ASCII case, or `1`.
pub open spec fn spec_sound(v: Option<String>) -> bool {
    match v {
        Some(s) => eq_ignore_ascii_case(s@, "true"@) || s@ == "1"@,
        None => false,
    }
}

/// The mouse hotkey setting; unset or unknown names give the first extra button.
pub open spec fn spec_hotkey(v: Option<String>) -> MouseHotkey {
    match v {
        Some(s) => match MouseHotkey::spec_parse(s@) {
            Some(h) => h,
            None => MouseHotkey::XButton1,
        },
        None => MouseHotkey::XButton1,
    }
}

/// An on/off setting read by `parse_bool`, with a default for when it is unset.
pub open spec fn spec_flag(v: Option<String>, default: bool) -> bool {
    match v {
        Some(s) => spec_parse_bool(s@),
        None => default,
    }
}

/// The auto-paste setting, with the platform default for when it is unset.
pub open spec fn spec_auto_paste(v: Option<String>, on_windows: bool) -> bool {
    match v {
        Some(s) => spec_parse_auto_paste(s@),
        None => on_windows,
    }
}

/// The whisper language setting; unset or unknown codes give the default language.
pub open spec fn spec_language(v: Option<String>) -> WhisperLanguage {
    match v {
        Some(s) => match WhisperLanguage::spec_parse(s@) {
            Some(l) => l,
            None => WhisperLanguage::Ru,
        },
        None => WhisperLanguage::Ru,
    }
}

fn string_or(o: Option<String>, d: &str) -> (r: String)
    ensures
        r@ == or_default(o, d@),
{
    match o {
        Some(s) => s,
        None => String::from_str(d),
    }
}

fn first_of(a: Option<String>, b: Option<String>) -> (r: Option<String>)
    ensures
        opt_view(r) == first_set(a, b),
{
    match a {
        Some(s) => Some(s),
        None => b,
    }
}

/// A copy of an optional string.
pub(crate) fn clone_opt(o: &Option<String>) -> (r: Option<String>)
    ensures
        opt_view(r) == opt_view(*o),
{
    match o {
        Some(s) => Some(s.clone()),
        None => None,
    }
}

impl Config {
    /// Builds the configuration from the environment settings, the database and model paths
    /// of the data directory, and whether the program runs on Windows.
    pub fn from_settings(
        env: EnvSettings,
        db_path: std::path::PathBuf,
        models_dir: std::path::PathBuf,
        on_windows: bool,
    ) -> (r: Config)
        ensures
            r.transcription_service == spec_service(env.primary_transcription_service),
            r.api_base_url@ == or_default(env.api_base_url, DEFAULT_API_BASE_URL@),
            opt_view(r.api_key) == first_set(env.api_key, env.groq_api_key),
            r.api_model@ == or_default(
                env.api_model,
                or_default(env.groq_stt_model, DEFAULT_API_MODEL@),
            ),
            r.db_path == db_path,
            r.models_dir == models_dir,
            r.sound_notification == spec_sound(env.sound_notification),
            r.mouse_hotkey == spec_hotkey(env.mouse_hotkey),
            r.consume_mouse_hotkey == spec_flag(env.consume_mouse_hotkey, true),
            r.auto_paste_after_transcribe == spec_auto_paste(
                env.auto_paste_after_transcribe,
                on_windows,
            ),
            r.whisper_language == spec_language(env.whisper_language),
            r.post_processing == spec_flag(env.post_processing, false),
            r.post_processing_base_url@ == or_default(
                env.post_processing_base_url,
                r.api_base_url@,
            ),
            opt_view(r.post_processing_api_key) == match env.post_processing_api_key {
                Some(k) => Some(k@),
                None => opt_view(r.api_key),
            },
            r.post_processing_model@ == or_default(
                env.post_processing_model,
                DEFAULT_POST_PROCESSING_MODEL@,
            ),
            r.post_processing_style@ == or_default(
                env.post_processing_style,
                DEFAULT_POST_PROCESSING_STYLE@,
            ),
    {
        let transcription_service = match &env.primary_transcription_service {
            Some(v) => {
                let lower = to_lowercase(v.as_str());
                if str_eq(lower.as_str(), "local") {
                    TranscriptionService::Local
                } else {
                    TranscriptionService::Api
                }
            },
            None => TranscriptionService::Api,
        };
        let api_base_url = string_or(env.api_base_url, DEFAULT_API_BASE_URL);
        let api_key = first_of(env.api_key, env.groq_api_key);
        let api_model = match env.api_model {
            Some(m) => m,
            None => string_or(env.groq_stt_model, DEFAULT_API_MODEL),
        };
        let sound_notification = match &env.sound_notification {
            Some(v) => str_eq_ignore_ascii_case(v.as_str(), "true") || str_eq(v.as_str(), "1"),
            None => false,
        };
        let mouse_hotkey = match &env.mouse_hotkey {
            Some(v) => match MouseHotkey::parse(v.as_str()) {
                Some(h) => h,
                None => MouseHotkey::XButton1,
            },
            None => MouseHotkey::XButton1,
        };
        let consume_mouse_hotkey = match &env.consume_mouse_hotkey {
            Some(v) => parse_bool(v.as_str()),
            None => true,
        };
        let auto_paste_after_transcribe = match &env.auto_paste_after_transcribe {
            Some(v) => parse_auto_paste(v.as_str()),
            None => default_auto_paste_after_transcribe(on_windows),
        };
        let whisper_language = match &env.whisper_language {
            Some(v) => WhisperLanguage::parse_or_default(v.as_str()),
            None => WhisperLanguage::default(),
        };
        let post_processing = match &env.post_processing {
            Some(v) => parse_bool(v.as_str()),
            None => false,
        };
        let post_processing_base_url = match env.post_processing_base_url {
            Some(u) => u,
            None => api_base_url.clone(),
        };
        let post_processing_api_key = match env.post_processing_api_key {
            Some(k) => Some(k),
            None => clone_opt(&api_key),
        };
        let post_processing_model = string_or(
            env.post_processing_model,
            DEFAULT_POST_PROCESSING_MODEL,
        );
        let post_processing_style = string_or(
            env.post_processing_style,
            DEFAULT_POST_PROCESSING_STYLE,
        );
        Config {
            transcription_service,
            api_base_url,
            api_key,
            api_model,
            db_path,
            models_dir,
            sound_notification,
            mouse_hotkey,
            consume_mouse_hotkey,
            auto_paste_after_transcribe,
            whisper_language,
            post_processing,
            post_processing_base_url,
            post_processing_api_key,
            post_processing_model,
            post_processing_style,
        }
    }
}

/// Name of the application's directory inside the user's local data directory.
pub const DATA_DIR_NAME: &'static str = "whispercrabs";

/// Name of the history database inside the application's data directory.
pub const HISTORY_DB_FILE: &'static str = "history.db";

/// Name of the directory for downloaded whisper models inside the application's data directory.
pub const MODELS_DIR_NAME: &'static str = "models";

/// Path of the Piper executable inside the Piper directory.
pub const PIPER_VENV_BINARY: &'static str = "venv/bin/piper";

/// Name of a voice's model file inside the Piper directory.
pub fn piper_voice_model_file(voice_id: &str) -> (r: String)
    ensures
        r@ == voice_id@ + ".onnx"@,
{
    concat2(voice_id, ".onnx")
}

/// Name of a voice's config file inside the Piper directory.
pub fn piper_voice_config_file(voice_id: &str) -> (r: String)
    ensures
        r@ == voice_id@ + ".onnx.json"@,
{
    concat2(voice_id, ".onnx.json")
}

/// Every provider preset has an identifier, a label and a default model, and an `http`
/// address.
pub proof fn lemma_api_presets_complete(i: int)
    requires
        0 <= i < spec_api_presets().len(),
    ensures
        spec_api_presets()[i].id@.len() > 0,
        spec_api_presets()[i].label@.len() > 0,
        spec_api_presets()[i].default_model@.len() > 0,
        has_prefix(spec_api_presets()[i].base_url@, "http"@),
{
    reveal_strlit("http");
    reveal_strlit("groq");
    reveal_strlit("Groq");
    reveal_strlit("https://api.groq.com/openai/v1");
    reveal_strlit("whisper-large-v3-turbo");
    reveal_strlit("ollama");
    reveal_strlit("Ollama");
    reveal_strlit("http://localhost:11434/v1");
    reveal_strlit("whisper");
    reveal_strlit("openrouter");
    reveal_strlit("OpenRouter");
    reveal_strlit("https://openrouter.ai/api/v1");
    reveal_strlit("openai/whisper-1");
    reveal_strlit("lmstudio");
    reveal_strlit("LM Studio");
    reveal_strlit("http://localhost:1234/v1");
    reveal_strlit("whisper-1");
    let u = spec_api_presets()[i].base_url@;
    assert(u.subrange(0, 4) =~= "http"@);
}

/// Every local model preset has an identifier, a label and a size, and its file is a `.bin`.
pub proof fn lemma_local_model_presets_complete(i: int)
    requires
        0 <= i < spec_local_model_presets().len(),
    ensures
        spec_local_model_presets()[i].id@.len() > 0,
        spec_local_model_presets()[i].label@.len() > 0,
        spec_local_model_presets()[i].size_label@.len() > 0,
        has_suffix(spec_local_model_presets()[i].file_name@, ".bin"@),
{
    reveal_strlit(".bin");
    reveal_strlit("local-tiny");
    reveal_strlit("Tiny Multilingual");
    reveal_strlit("ggml-tiny.bin");
    reveal_strlit("~78 MB");
    reveal_strlit("local-base");
    reveal_strlit("Base Multilingual");
    reveal_strlit("ggml-base.bin");
    reveal_strlit("~148 MB");
    reveal_strlit("local-small");
    reveal_strlit("Small Multilingual");
    reveal_strlit("ggml-small.bin");
    reveal_strlit("~488 MB");
    reveal_strlit("local-medium");
    reveal_strlit("Medium Multilingual");
    reveal_strlit("ggml-medium.bin");
    reveal_strlit("~1.53 GB");
    let f = spec_local_model_presets()[i].file_name@;
    assert(f.subrange(f.len() - 4, f.len() as int) =~= ".bin"@);
}

/// The download address of a model file is on huggingface.co and ends with the file's name.
pub proof fn lemma_model_url_shape(file_name: Seq<char>)
    ensures
        has_prefix(spec_model_url(file_name), "https://huggingface.co/"@),
        has_suffix(spec_model_url(file_name), file_name),
{
    reveal_strlit("https://huggingface.co/");
    reveal_strlit("https://huggingface.co/ggerganov/whisper.cpp/resolve/main/");
    let u = spec_model_url(file_name);
    assert(u.subrange(0, 23) =~= "https://huggingface.co/"@);
    assert(u.subrange(u.len() - file_name.len(), u.len() as int) =~= file_name);
}

} // verus!
