//! Auto-paste after transcription: the window captured when recording starts, and the steps
//! that bring it back to the front and send it Ctrl+V, each one checked before the next.
use vstd::prelude::*;

use crate::text::{concat2, decimal, push_decimal};

verus! {

/// The window that was in front when recording started.
#[derive(Clone, Copy, Debug)]
pub struct PasteTarget {
    hwnd: isize,
}

impl PasteTarget {
    /// The window handle.
    pub closed spec fn spec_hwnd(self) -> isize {
        self.hwnd
    }

    /// The window handle.
    pub fn hwnd(&self) -> (r: isize)
        ensures
            r == self.spec_hwnd(),
    {
        self.hwnd
    }
}

/// The paste target for the window in front (`0` when there is none, as on platforms without
/// auto-paste).
pub fn capture_foreground_window(foreground: isize) -> (r: Option<PasteTarget>)
    ensures
        foreground == 0 ==> r is None,
        foreground != 0 ==> (r matches Some(t) && t.spec_hwnd() == foreground),
{
    if foreground == 0 {
        None
    } else {
        Some(PasteTarget { hwnd: foreground })
    }
}

/// Input record type of a keyboard event.
pub const INPUT_KEYBOARD: u32 = 1;

/// Flag of a key release.
pub const KEYEVENTF_KEYUP: u32 = 0x0002;

/// Virtual key code of Ctrl.
pub const VK_CONTROL: u16 = 0x11;

/// Virtual key code of V.
pub const VK_V: u16 = 0x56;

/// A synthetic keyboard event, field for field as the system's keyboard input record.
#[derive(Clone, Copy, PartialEq, Eq, Debug, Structural)]
pub struct KeyboardInput {
    pub input_type: u32,
    pub vk: u16,
    pub scan: u16,
    pub flags: u32,
    pub time: u32,
    pub extra_info: usize,
}

/// A keyboard event for a virtual key with the given flags.
pub open spec fn spec_keyboard_input(vk: u16, flags: u32) -> KeyboardInput {
    KeyboardInput { input_type: INPUT_KEYBOARD, vk, scan: 0, flags, time: 0, extra_info: 0 }
}

/// A keyboard event for a virtual key with the given flags.
pub fn keyboard_input(vk: u16, flags: u32) -> (r: KeyboardInput)
    ensures
        r == spec_keyboard_input(vk, flags),
{
    KeyboardInput { input_type: INPUT_KEYBOARD, vk, scan: 0, flags, time: 0, extra_info: 0 }
}

/// Ctrl down, V down, V up, Ctrl up.
pub open spec fn spec_ctrl_v_inputs() -> Seq<KeyboardInput> {
    seq![
        spec_keyboard_input(VK_CONTROL, 0),
        spec_keyboard_input(VK_V, 0),
        spec_keyboard_input(VK_V, KEYEVENTF_KEYUP),
        spec_keyboard_input(VK_CONTROL, KEYEVENTF_KEYUP),
    ]
}

/// The four keyboard events of a Ctrl+V.
pub fn ctrl_v_inputs() -> (r: Vec<KeyboardInput>)
    ensures
        r@ == spec_ctrl_v_inputs(),
{
    let mut v = Vec::new();
    v.push(keyboard_input(VK_CONTROL, 0));
    v.push(keyboard_input(VK_V, 0));
    v.push(keyboard_input(VK_V, KEYEVENTF_KEYUP));
    v.push(keyboard_input(VK_CONTROL, KEYEVENTF_KEYUP));
    assert(v@ =~= spec_ctrl_v_inputs());
    v
}

/// Why auto-paste did not happen.
#[derive(Clone, Copy, PartialEq, Eq, Debug, Structural)]
pub enum PasteError {
    TargetMissing,
    WindowGone,
    SetForegroundFailed,
    ForegroundNotRestored,
    /// Only this many of the four key events were sent.
    IncompleteInput(u32),
}

impl PasteError {
    /// The message reported for the error.
    pub open spec fn spec_message(self) -> Seq<char> {
        match self {
            PasteError::TargetMissing => "auto paste target missing"@,
            PasteError::WindowGone => "auto paste target window is no longer valid"@,
            PasteError::SetForegroundFailed => "SetForegroundWindow failed"@,
            PasteError::ForegroundNotRestored => "foreground window did not restore to saved target"@,
            PasteError::IncompleteInput(sent) => "SendInput sent "@ + decimal(sent as nat) + " of 4 keyboard events"@,
        }
    }

    /// The message reported for the error.
    pub fn message(&self) -> (r: String)
        ensures
            r@ == self.spec_message(),
    {
        match self {
            PasteError::TargetMissing => String::from_str("auto paste target missing"),
            PasteError::WindowGone => String::from_str("auto paste target window is no longer valid"),
            PasteError::SetForegroundFailed => String::from_str("SetForegroundWindow failed"),
            PasteError::ForegroundNotRestored => String::from_str(
                "foreground window did not restore to saved target",
            ),
            PasteError::IncompleteInput(sent) => {
                let mut r = String::from_str("SendInput sent ");
                push_decimal(&mut r, *sent);
                r.append(" of 4 keyboard events");
                r
            },
        }
    }
}

/// What the system answered to the previous step.
#[derive(Clone, Copy, PartialEq, Eq, Debug, Structural)]
pub enum PasteObservation {
    /// Nothing yet: the paste is starting.
    Begin,
    /// Whether the target still is a window.
    IsWindow(bool),
    /// Whether bringing the target to the front succeeded.
    SetForeground(bool),
    /// The window in front after the pause.
    Foreground(isize),
    /// How many key events were sent.
    Sent(u32),
}

/// The next step of a paste.
#[derive(Clone, Copy, Debug)]
pub enum PasteAction {
    /// Ask whether the target still is a window.
    CheckWindow,
    /// Bring the target to the front.
    RaiseWindow,
    /// Wait this many milliseconds, then read which window is in front.
    WaitThenReadForeground(u64),
    /// Send the four events of Ctrl+V.
    SendCtrlV,
    /// Stop, with this result.
    Finish(Result<(), PasteError>),
}

/// Pause between bringing the target to the front and checking that it is there.
pub const RAISE_DELAY_MS: u64 = 120;

/// The next step of pasting into `target`, given the answer to the previous one.
pub open spec fn spec_paste_next(target: PasteTarget, obs: PasteObservation) -> PasteAction {
    match obs {
        PasteObservation::Begin => if target.spec_hwnd() == 0 {
            PasteAction::Finish(Err(PasteError::TargetMissing))
        } else {
            PasteAction::CheckWindow
        },
        PasteObservation::IsWindow(ok) => if ok {
            PasteAction::RaiseWindow
        } else {
            PasteAction::Finish(Err(PasteError::WindowGone))
        },
        PasteObservation::SetForeground(ok) => if ok {
            PasteAction::WaitThenReadForeground(RAISE_DELAY_MS)
        } else {
            PasteAction::Finish(Err(PasteError::SetForegroundFailed))
        },
        PasteObservation::Foreground(h) => if h == target.spec_hwnd() {
            PasteAction::SendCtrlV
        } else {
            PasteAction::Finish(Err(PasteError::ForegroundNotRestored))
        },
        PasteObservation::Sent(n) => if n == 4 {
            PasteAction::Finish(Ok(()))
        } else {
            PasteAction::Finish(Err(PasteError::IncompleteInput(n)))
        },
    }
}

/// The next step of pasting into `target`, given the answer to the previous one.
pub fn paste_into_target_step(target: &PasteTarget, obs: PasteObservation) -> (r: PasteAction)
    ensures
        r == spec_paste_next(*target, obs),
{
    match obs {
        PasteObservation::Begin => {
            if target.hwnd == 0 {
                PasteAction::Finish(Err(PasteError::TargetMissing))
            } else {
                PasteAction::CheckWindow
            }
        },
        PasteObservation::IsWindow(ok) => {
            if ok {
                PasteAction::RaiseWindow
            } else {
                PasteAction::Finish(Err(PasteError::WindowGone))
            }
        },
        PasteObservation::SetForeground(ok) => {
            if ok {
                PasteAction::WaitThenReadForeground(RAISE_DELAY_MS)
            } else {
                PasteAction::Finish(Err(PasteError::SetForegroundFailed))
            }
        },
        PasteObservation::Foreground(h) => {
            if h == target.hwnd {
                PasteAction::SendCtrlV
            } else {
                PasteAction::Finish(Err(PasteError::ForegroundNotRestored))
            }
        },
        PasteObservation::Sent(n) => {
            if n == 4 {
                PasteAction::Finish(Ok(()))
            } else {
                PasteAction::Finish(Err(PasteError::IncompleteInput(n)))
            }
        },
    }
}

/// Whether an observation is an answer to an action.
pub open spec fn answers(action: PasteAction, obs: PasteObservation) -> bool {
    match action {
        PasteAction::CheckWindow => obs is IsWindow,
        PasteAction::RaiseWindow => obs is SetForeground,
        PasteAction::WaitThenReadForeground(_) => obs is Foreground,
        PasteAction::SendCtrlV => obs is Sent,
        PasteAction::Finish(_) => false,
    }
}

/// A run of a paste: it begins, and each later observation answers the step before it.
pub open spec fn is_run(target: PasteTarget, t: Seq<PasteObservation>) -> bool {
    &&& t.len() > 0
    &&& t[0] == PasteObservation::Begin
    &&& forall|i: int| 0 < i < t.len() ==> answers(spec_paste_next(target, t[i - 1]), #[trigger] t[i])
}

/// A paste succeeds only along the one complete path: the target was a window, still is one,
/// came back to the front, was found in front after the pause, and received all four key events.
pub proof fn lemma_paste_succeeds_only_when_all_checks_pass(target: PasteTarget, t: Seq<PasteObservation>)
    requires
        is_run(target, t),
        spec_paste_next(target, t.last()) == PasteAction::Finish(Ok(())),
    ensures
        target.spec_hwnd() != 0,
        t == seq![
            PasteObservation::Begin,
            PasteObservation::IsWindow(true),
            PasteObservation::SetForeground(true),
            PasteObservation::Foreground(target.spec_hwnd()),
            PasteObservation::Sent(4),
        ],
{
    let n = t.len() as int;
    assert(t[n - 1] == PasteObservation::Sent(4));
    assert(n >= 2);
    assert(answers(spec_paste_next(target, t[n - 2]), t[n - 1]));
    assert(t[n - 2] == PasteObservation::Foreground(target.spec_hwnd()));
    assert(n >= 3);
    assert(answers(spec_paste_next(target, t[n - 3]), t[n - 2]));
    assert(t[n - 3] == PasteObservation::SetForeground(true));
    assert(n >= 4);
    assert(answers(spec_paste_next(target, t[n - 4]), t[n - 3]));
    assert(t[n - 4] == PasteObservation::IsWindow(true));
    assert(n >= 5);
    assert(answers(spec_paste_next(target, t[n - 5]), t[n - 4]));
    assert(t[n - 5] == PasteObservation::Begin);
    if n > 5 {
        assert(answers(spec_paste_next(target, t[n - 6]), t[n - 5]));
    }
    assert(n == 5);
    assert(t =~= seq![
        PasteObservation::Begin,
        PasteObservation::IsWindow(true),
        PasteObservation::SetForeground(true),
        PasteObservation::Foreground(target.spec_hwnd()),
        PasteObservation::Sent(4),
    ]);
}

} // verus!
