//! The entries of the right-click menu, and which status messages are errors.
use vstd::prelude::*;

use crate::config::{api_presets, local_model_presets, spec_api_presets, spec_local_model_presets, LocalModelPreset};
use crate::text::{concat2, contains, contains_str, has_prefix, replace_all, replace_str, starts_with};

verus! {

/// An entry of the transcription menu: the text shown and the action it triggers.
pub struct MenuEntry {
    pub label: String,
    pub action: String,
}

/// The action that selects a provider.
pub open spec fn spec_mode_action(id: Seq<char>) -> Seq<char> {
    "app.transcription-mode::"@ + id
}

/// The action that selects a provider.
pub fn mode_action(id: &str) -> (r: String)
    ensures
        r@ == spec_mode_action(id@),
{
    concat2("app.transcription-mode::", id)
}

/// The menu text of a local model: its label without " Multilingual", then its size with
/// Cyrillic units in brackets.
pub open spec fn spec_local_model_label(lm: LocalModelPreset) -> Seq<char> {
    replace_all(lm.label@, " Multilingual"@, ""@) + " ("@ + replace_all(
        replace_all(lm.size_label@, "MB"@, "МБ"@),
        "GB"@,
        "ГБ"@,
    ) + ")"@
}

/// The menu text of a local model.
pub fn local_model_label(lm: &LocalModelPreset) -> (r: String)
    ensures
        r@ == spec_local_model_label(*lm),
{
    proof {
        reveal_strlit(" Multilingual");
        reveal_strlit("MB");
        reveal_strlit("GB");
    }
    let name = replace_str(lm.label, " Multilingual", "");
    let mb = replace_str(lm.size_label, "MB", "МБ");
    let size = replace_str(mb.as_str(), "GB", "ГБ");
    let mut r = name;
    r.append(" (");
    r.append(size.as_str());
    r.append(")");
    r
}

/// The local section of the menu: one entry per local model, in table order.
pub fn local_menu_entries() -> (r: Vec<MenuEntry>)
    ensures
        r@.len() == spec_local_model_presets().len(),
        forall|i: int|
            0 <= i < r@.len() ==> (#[trigger] r@[i]).label@ == spec_local_model_label(
                spec_local_model_presets()[i],
            ) && r@[i].action@ == spec_mode_action(spec_local_model_presets()[i].id@),
{
    let presets = local_model_presets();
    let mut out: Vec<MenuEntry> = Vec::new();
    let n = presets.len();
    let mut i: usize = 0;
    while i < n
        invariant
            n == presets@.len(),
            presets@ == spec_local_model_presets(),
            i <= n,
            out@.len() == i,
            forall|k: int|
                0 <= k < i ==> (#[trigger] out@[k]).label@ == spec_local_model_label(
                    spec_local_model_presets()[k],
                ) && out@[k].action@ == spec_mode_action(spec_local_model_presets()[k].id@),
        decreases n - i,
    {
        let lm = presets[i];
        out.push(MenuEntry { label: local_model_label(&lm), action: mode_action(lm.id) });
        i = i + 1;
    }
    out
}

/// Menu text of the recommended cloud provider.
pub const GROQ_MENU_LABEL: &'static str = "Groq (рекомендуем, бесплатно)";

/// Menu text of the custom endpoint.
pub const CUSTOM_MENU_LABEL: &'static str = "Свой API…";

/// The cloud section of the menu: the recommended provider (Groq), then the custom endpoint.
pub fn api_menu_entries() -> (r: Vec<MenuEntry>)
    ensures
        r@.len() == 2,
        r@[0].label@ == GROQ_MENU_LABEL@,
        r@[0].action@ == spec_mode_action(spec_api_presets()[0].id@),
        r@[1].label@ == CUSTOM_MENU_LABEL@,
        r@[1].action@ == spec_mode_action("custom"@),
{
    let groq = api_presets()[0];
    let mut out: Vec<MenuEntry> = Vec::new();
    out.push(MenuEntry { label: String::from_str(GROQ_MENU_LABEL), action: mode_action(groq.id) });
    out.push(MenuEntry { label: String::from_str(CUSTOM_MENU_LABEL), action: mode_action("custom") });
    out
}

/// Whether a status message reports an error (such messages also get a dialog on macOS).
pub open spec fn spec_is_error_status(text: Seq<char>) -> bool {
    ||| has_prefix(text, "No "@)
    ||| has_prefix(text, "Err:"@)
    ||| contains(text, "failed"@)
    ||| contains(text, "Failed"@)
}

/// Whether a status message reports an error.
pub fn is_error_status(text: &str) -> (r: bool)
    ensures
        r == spec_is_error_status(text@),
{
    starts_with(text, "No ") || starts_with(text, "Err:") || contains_str(text, "failed")
        || contains_str(text, "Failed")
}

} // verus!
