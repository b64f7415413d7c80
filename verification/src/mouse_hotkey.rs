//! The global mouse hotkey: whether a listener is installed, and what the low-level mouse hook
//! does with each mouse message.
use vstd::prelude::*;

use crate::config::MouseHotkey;

verus! {

/// Event sent from the mouse hook to the interface.
#[derive(Clone, Copy, PartialEq, Eq, Debug, Structural)]
pub enum MouseHotkeyEvent {
    Pressed,
}

/// Hook code of a message the hook may act on.
pub const HC_ACTION: i32 = 0;

/// Middle button pressed.
pub const WM_MBUTTONDOWN: usize = 0x0207;

/// Middle button released.
pub const WM_MBUTTONUP: usize = 0x0208;

/// Extra button pressed.
pub const WM_XBUTTONDOWN: usize = 0x020B;

/// Extra button released.
pub const WM_XBUTTONUP: usize = 0x020C;

/// The first extra button.
pub const XBUTTON1: u32 = 0x0001;

/// The second extra button.
pub const XBUTTON2: u32 = 0x0002;

/// What the hook was installed with.
#[derive(Clone, Copy, PartialEq, Eq, Debug, Structural)]
pub struct HookConfig {
    pub hotkey: MouseHotkey,
    /// Whether the hotkey's clicks are kept from other programs.
    pub consume: bool,
}

/// How a listener is started for a configured hotkey.
#[derive(Clone, Copy, PartialEq, Eq, Debug, Structural)]
pub enum ListenerPlan {
    /// The hotkey is disabled: no listener.
    Disabled,
    /// The platform has no global mouse hook: no listener.
    Unsupported,
    /// Install the low-level mouse hook.
    Install,
}

/// How a listener is started for the configured hotkey.
pub fn listener_plan(hotkey: MouseHotkey, on_windows: bool) -> (r: ListenerPlan)
    ensures
        r == (if hotkey == MouseHotkey::Disabled {
            ListenerPlan::Disabled
        } else if !on_windows {
            ListenerPlan::Unsupported
        } else {
            ListenerPlan::Install
        }),
{
    if hotkey == MouseHotkey::Disabled {
        ListenerPlan::Disabled
    } else if !on_windows {
        ListenerPlan::Unsupported
    } else {
        ListenerPlan::Install
    }
}

/// The extra button a mouse message is about: the high word of its mouse data.
pub open spec fn spec_xbutton(mouse_data: u32) -> u32 {
    (mouse_data >> 16u32) & 0xffffu32
}

/// The extra button a mouse message is about: the high word of its mouse data.
pub fn xbutton(mouse_data: u32) -> (r: u32)
    ensures
        r == spec_xbutton(mouse_data),
{
    (mouse_data >> 16u32) & 0xffffu32
}

/// Whether a message is the press of the configured hotkey.
pub open spec fn spec_hotkey_down(config: Option<HookConfig>, w_param: usize, mouse_data: u32) -> bool {
    match config {
        Some(c) => match c.hotkey {
            MouseHotkey::Middle => w_param == WM_MBUTTONDOWN,
            MouseHotkey::XButton1 => w_param == WM_XBUTTONDOWN && spec_xbutton(mouse_data) == XBUTTON1,
            MouseHotkey::XButton2 => w_param == WM_XBUTTONDOWN && spec_xbutton(mouse_data) == XBUTTON2,
            MouseHotkey::Disabled => false,
        },
        None => false,
    }
}

/// Whether a message is the release of the configured hotkey.
pub open spec fn spec_hotkey_up(config: Option<HookConfig>, w_param: usize, mouse_data: u32) -> bool {
    match config {
        Some(c) => match c.hotkey {
            MouseHotkey::Middle => w_param == WM_MBUTTONUP,
            MouseHotkey::XButton1 => w_param == WM_XBUTTONUP && spec_xbutton(mouse_data) == XBUTTON1,
            MouseHotkey::XButton2 => w_param == WM_XBUTTONUP && spec_xbutton(mouse_data) == XBUTTON2,
            MouseHotkey::Disabled => false,
        },
        None => false,
    }
}

/// Whether a message is the press of the configured hotkey (never, before the hook is configured).
pub fn is_configured_hotkey_down(config: Option<HookConfig>, w_param: usize, mouse_data: u32) -> (r: bool)
    ensures
        r == spec_hotkey_down(config, w_param, mouse_data),
{
    match config {
        Some(c) => match c.hotkey {
            MouseHotkey::Middle => w_param == WM_MBUTTONDOWN,
            MouseHotkey::XButton1 => w_param == WM_XBUTTONDOWN && xbutton(mouse_data) == XBUTTON1,
            MouseHotkey::XButton2 => w_param == WM_XBUTTONDOWN && xbutton(mouse_data) == XBUTTON2,
            MouseHotkey::Disabled => false,
        },
        None => false,
    }
}

/// Whether a message is the release of the configured hotkey (never, before the hook is configured).
pub fn is_configured_hotkey_up(config: Option<HookConfig>, w_param: usize, mouse_data: u32) -> (r: bool)
    ensures
        r == spec_hotkey_up(config, w_param, mouse_data),
{
    match config {
        Some(c) => match c.hotkey {
            MouseHotkey::Middle => w_param == WM_MBUTTONUP,
            MouseHotkey::XButton1 => w_param == WM_XBUTTONUP && xbutton(mouse_data) == XBUTTON1,
            MouseHotkey::XButton2 => w_param == WM_XBUTTONUP && xbutton(mouse_data) == XBUTTON2,
            MouseHotkey::Disabled => false,
        },
        None => false,
    }
}

/// What the hook does with one mouse message.
#[derive(Clone, Copy, PartialEq, Eq, Debug, Structural)]
pub struct HookDecision {
    /// Report a hotkey press to the interface.
    pub notify: bool,
    /// Keep the message from other programs instead of passing it on.
    pub swallow: bool,
}

/// What the hook does with a mouse message: a press of the hotkey is reported; the hotkey's
/// presses and releases are kept from other programs when so configured; everything else
/// passes on untouched.
pub open spec fn spec_hook_decision(config: Option<HookConfig>, n_code: i32, w_param: usize, mouse_data: u32) -> HookDecision {
    if n_code == HC_ACTION {
        let down = spec_hotkey_down(config, w_param, mouse_data);
        let up = spec_hotkey_up(config, w_param, mouse_data);
        HookDecision {
            notify: down,
            swallow: (down || up) && match config {
                Some(c) => c.consume,
                None => false,
            },
        }
    } else {
        HookDecision { notify: false, swallow: false }
    }
}

/// What the hook does with a mouse message.
pub fn hook_decision(config: Option<HookConfig>, n_code: i32, w_param: usize, mouse_data: u32) -> (r: HookDecision)
    ensures
        r == spec_hook_decision(config, n_code, w_param, mouse_data),
{
    if n_code == HC_ACTION {
        let down = is_configured_hotkey_down(config, w_param, mouse_data);
        let up = is_configured_hotkey_up(config, w_param, mouse_data);
        let consume = match config {
            Some(c) => c.consume,
            None => false,
        };
        HookDecision { notify: down, swallow: (down || up) && consume }
    } else {
        HookDecision { notify: false, swallow: false }
    }
}

/// The hook never keeps a message of another button, nor any message when consuming is off, nor
/// any message of a disabled hotkey; and a message is never both a press and a release.
pub proof fn lemma_hook_passes_other_messages(config: Option<HookConfig>, n_code: i32, w_param: usize, mouse_data: u32)
    ensures
        !(spec_hotkey_down(config, w_param, mouse_data) && spec_hotkey_up(config, w_param, mouse_data)),
        spec_hook_decision(config, n_code, w_param, mouse_data).swallow ==> (config matches Some(c)
            && c.consume && c.hotkey != MouseHotkey::Disabled),
        spec_hook_decision(config, n_code, w_param, mouse_data).swallow ==> (w_param == WM_MBUTTONDOWN
            || w_param == WM_MBUTTONUP || w_param == WM_XBUTTONDOWN || w_param == WM_XBUTTONUP),
        spec_hook_decision(config, n_code, w_param, mouse_data).notify ==> (w_param == WM_MBUTTONDOWN
            || w_param == WM_XBUTTONDOWN),
{
}

/// Each hotkey answers to its own button only. The middle button's press is 0x0207 and its
/// release 0x0208; a disabled hotkey matches nothing. With the hotkey set to the first
/// (second) extra button, a message is its press exactly when it is an extra-button press
/// (0x020B) whose mouse data has 1 (2) in its high word, and its release exactly when it is an
/// extra-button release (0x020C) with that same high word; the press is reported, and both are
/// kept from other programs exactly when consuming is on.
pub proof fn lemma_extra_buttons_distinct(consume: bool, w_param: usize, mouse_data: u32)
    ensures
        spec_hotkey_down(Some(HookConfig { hotkey: MouseHotkey::Middle, consume }), w_param, mouse_data)
            <==> w_param == 0x0207,
        spec_hotkey_up(Some(HookConfig { hotkey: MouseHotkey::Middle, consume }), w_param, mouse_data)
            <==> w_param == 0x0208,
        !spec_hotkey_down(Some(HookConfig { hotkey: MouseHotkey::Disabled, consume }), w_param, mouse_data),
        !spec_hotkey_up(Some(HookConfig { hotkey: MouseHotkey::Disabled, consume }), w_param, mouse_data),
        spec_hotkey_down(Some(HookConfig { hotkey: MouseHotkey::XButton1, consume }), w_param, mouse_data)
            <==> (w_param == 0x020B && (mouse_data >> 16u32) & 0xffffu32 == 1),
        spec_hotkey_down(Some(HookConfig { hotkey: MouseHotkey::XButton2, consume }), w_param, mouse_data)
            <==> (w_param == 0x020B && (mouse_data >> 16u32) & 0xffffu32 == 2),
        spec_hotkey_up(Some(HookConfig { hotkey: MouseHotkey::XButton1, consume }), w_param, mouse_data)
            <==> (w_param == 0x020C && (mouse_data >> 16u32) & 0xffffu32 == 1),
        spec_hotkey_up(Some(HookConfig { hotkey: MouseHotkey::XButton2, consume }), w_param, mouse_data)
            <==> (w_param == 0x020C && (mouse_data >> 16u32) & 0xffffu32 == 2),
        spec_hook_decision(Some(HookConfig { hotkey: MouseHotkey::XButton2, consume }), 0, w_param, mouse_data)
            == (HookDecision {
                notify: w_param == 0x020B && (mouse_data >> 16u32) & 0xffffu32 == 2,
                swallow: consume && (w_param == 0x020B || w_param == 0x020C)
                    && (mouse_data >> 16u32) & 0xffffu32 == 2,
            }),
        spec_hook_decision(Some(HookConfig { hotkey: MouseHotkey::XButton1, consume }), 0, w_param, mouse_data)
            == (HookDecision {
                notify: w_param == 0x020B && (mouse_data >> 16u32) & 0xffffu32 == 1,
                swallow: consume && (w_param == 0x020B || w_param == 0x020C)
                    && (mouse_data >> 16u32) & 0xffffu32 == 1,
            }),
{
}

} // verus!
