//! Safe, process-wide observation of low-level keyboard and mouse events.
//!
//! The library holds the logic of the hooks as a verified state machine: the registry that
//! keeps at most one hook context per kind and counts the handles that share it, the
//! registration token of each context and its one-time teardown, the decision that the hook
//! callback takes on each raw event, and the queue that hands events to receivers. The caller
//! owns the registry, performs the OS calls that the registry asks for, and reports back.

use vstd::prelude::*;

pub mod event;
pub mod raw;
pub mod inner;
pub mod hook;
pub mod laws;

use crate::event::HookKind;
pub use crate::hook::Hook;
use crate::inner::{HookRegistry, present, setup_keyboard_hook, setup_mouse_hook, setup_spec};

verus! {

/// Requests a handle on the keyboard hook: `None` when one is already live.
pub fn keyboard_hook(registry: &mut HookRegistry) -> (r: Option<Hook>)
    requires
        old(registry).wf(),
    ensures
        final(registry).wf(),
        r.is_some() == !present(old(registry)@, HookKind::Keyboard),
        r.is_none() ==> final(registry)@ == old(registry)@,
        r matches Some(h) ==> h.wf() && h@ == (true, false) && final(registry)@ == setup_spec(
            old(registry)@,
            HookKind::Keyboard,
        ),
{
    match setup_keyboard_hook(registry) {
        Some(k) => Some(Hook::from_parts(Some(k), None)),
        None => None,
    }
}

/// Requests a handle on the mouse hook: `None` when one is already live.
pub fn mouse_hook(registry: &mut HookRegistry) -> (r: Option<Hook>)
    requires
        old(registry).wf(),
    ensures
        final(registry).wf(),
        r.is_some() == !present(old(registry)@, HookKind::Mouse),
        r.is_none() ==> final(registry)@ == old(registry)@,
        r matches Some(h) ==> h.wf() && h@ == (false, true) && final(registry)@ == setup_spec(
            old(registry)@,
            HookKind::Mouse,
        ),
{
    match setup_mouse_hook(registry) {
        Some(m) => Some(Hook::from_parts(None, Some(m))),
        None => None,
    }
}

/// Requests one handle on both the keyboard and the mouse hook: `None`, with nothing
/// changed, when either is already live.
pub fn willhook(registry: &mut HookRegistry) -> (r: Option<Hook>)
    requires
        old(registry).wf(),
    ensures
        final(registry).wf(),
        r.is_some() == (!present(old(registry)@, HookKind::Keyboard) && !present(
            old(registry)@,
            HookKind::Mouse,
        )),
        r.is_none() ==> final(registry)@ == old(registry)@,
        r matches Some(h) ==> h.wf() && h@ == (true, true) && final(registry)@ == setup_spec(
            setup_spec(old(registry)@, HookKind::Keyboard),
            HookKind::Mouse,
        ),
{
    if registry.is_hook_present(HookKind::Keyboard) || registry.is_hook_present(HookKind::Mouse) {
        return None;
    }
    let k = setup_keyboard_hook(registry);
    let m = setup_mouse_hook(registry);
    match (k, m) {
        (Some(k), Some(m)) => Some(Hook::from_parts(Some(k), Some(m))),
        _ => None,
    }
}

} // verus!
