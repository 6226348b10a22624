use vstd::prelude::*;

verus! {

/// Which low-level hook table an observer is attached to.
#[derive(Clone, Copy, Debug, PartialEq, Eq, Structural)]
pub enum HookKind {
    Keyboard,
    Mouse,
}

/// Direction of a key or button action.
#[derive(Clone, Copy, Debug, PartialEq, Eq, Structural)]
pub enum KeyCode {
    Down,
    Up,
}

/// Keyboard message: a key was pressed.
pub const WM_KEYDOWN: usize = 0x0100;
/// Keyboard message: a key was released.
pub const WM_KEYUP: usize = 0x0101;
/// Keyboard message: a key was pressed while ALT was held.
pub const WM_SYSKEYDOWN: usize = 0x0104;
/// Keyboard message: a key was released while ALT was held.
pub const WM_SYSKEYUP: usize = 0x0105;

/// What a raw keyboard action code means, if anything.
pub open spec fn key_action_spec(action: usize) -> Option<KeyCode> {
    if action == WM_KEYDOWN || action == WM_SYSKEYDOWN {
        Some(KeyCode::Down)
    } else if action == WM_KEYUP || action == WM_SYSKEYUP {
        Some(KeyCode::Up)
    } else {
        None
    }
}

/// Classifies a raw keyboard action code; codes that are not key messages give `None`.
pub fn classify_key_action(action: usize) -> (r: Option<KeyCode>)
    ensures
        r == key_action_spec(action),
{
    if action == WM_KEYDOWN || action == WM_SYSKEYDOWN {
        Some(KeyCode::Down)
    } else if action == WM_KEYUP || action == WM_SYSKEYUP {
        Some(KeyCode::Up)
    } else {
        None
    }
}

/// Mouse message: left button pressed.
pub const WM_LBUTTONDOWN: usize = 0x0201;
/// Mouse message: left button released.
pub const WM_LBUTTONUP: usize = 0x0202;
/// Mouse message: right button pressed.
pub const WM_RBUTTONDOWN: usize = 0x0204;
/// Mouse message: right button released.
pub const WM_RBUTTONUP: usize = 0x0205;
/// Mouse message: middle button pressed.
pub const WM_MBUTTONDOWN: usize = 0x0207;
/// Mouse message: middle button released.
pub const WM_MBUTTONUP: usize = 0x0208;
/// Mouse message: extra button pressed.
pub const WM_XBUTTONDOWN: usize = 0x020B;
/// Mouse message: extra button released.
pub const WM_XBUTTONUP: usize = 0x020C;

/// What a raw mouse action code means, if anything; pointer moves and wheel turns mean nothing here.
pub open spec fn button_action_spec(action: usize) -> Option<KeyCode> {
    if action == WM_LBUTTONDOWN || action == WM_RBUTTONDOWN || action == WM_MBUTTONDOWN
        || action == WM_XBUTTONDOWN {
        Some(KeyCode::Down)
    } else if action == WM_LBUTTONUP || action == WM_RBUTTONUP || action == WM_MBUTTONUP
        || action == WM_XBUTTONUP {
        Some(KeyCode::Up)
    } else {
        None
    }
}

/// Classifies a raw mouse action code; codes that are not button messages give `None`.
pub fn classify_button_action(action: usize) -> (r: Option<KeyCode>)
    ensures
        r == button_action_spec(action),
{
    if action == WM_LBUTTONDOWN || action == WM_RBUTTONDOWN || action == WM_MBUTTONDOWN
        || action == WM_XBUTTONDOWN {
        Some(KeyCode::Down)
    } else if action == WM_LBUTTONUP || action == WM_RBUTTONUP || action == WM_MBUTTONUP
        || action == WM_XBUTTONUP {
        Some(KeyCode::Up)
    } else {
        None
    }
}

/// What a raw action code delivered to a hook of `kind` means.
pub open spec fn action_spec(kind: HookKind, action: usize) -> Option<KeyCode> {
    match kind {
        HookKind::Keyboard => key_action_spec(action),
        HookKind::Mouse => button_action_spec(action),
    }
}

/// Classifies a raw action code by the table of the hook kind it came from.
pub fn classify_action(kind: HookKind, action: usize) -> (r: Option<KeyCode>)
    ensures
        r == action_spec(kind, action),
{
    match kind {
        HookKind::Keyboard => classify_key_action(action),
        HookKind::Mouse => classify_button_action(action),
    }
}

/// The event, if any, that one invocation of the hook callback produces: nothing when the
/// filter code is negative or no hook of that kind is live, else the classified action.
pub open spec fn callback_event_spec(kind: HookKind, code: i32, live: bool, action: usize) -> Option<
    KeyCode,
> {
    if code < 0 || !live {
        None
    } else {
        action_spec(kind, action)
    }
}

/// Decides what one invocation of the hook callback sends to the event channel. The caller
/// forwards the event to the next hook in every case.
pub fn callback_event(kind: HookKind, code: i32, live: bool, action: usize) -> (r: Option<KeyCode>)
    ensures
        r == callback_event_spec(kind, code, live, action),
        code < 0 ==> r.is_none(),
{
    if code < 0 || !live {
        None
    } else {
        classify_action(kind, action)
    }
}

} // verus!
