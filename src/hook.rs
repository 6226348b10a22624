use vstd::prelude::*;

use crate::event::{HookKind, KeyCode};
use crate::inner::{
    HookRegistry, InnerHook, RegistryView, TryRecvError, release_spec, slot_of,
    slot_release_token, try_recv_spec, try_recv_state_spec,
};
use std::vec::Vec;

verus! {

/// A caller's handle on the keyboard hook, the mouse hook, or both.
pub struct Hook {
    keyboard: Option<InnerHook>,
    mouse: Option<InnerHook>,
}

impl View for Hook {
    /// Whether the handle holds the keyboard hook, and whether it holds the mouse hook.
    type V = (bool, bool);

    closed spec fn view(&self) -> (bool, bool) {
        (self.keyboard.is_some(), self.mouse.is_some())
    }
}

/// The sequence holding the value of `t`, if any.
pub open spec fn opt_seq(t: Option<usize>) -> Seq<usize> {
    match t {
        Some(x) => seq![x],
        None => Seq::empty(),
    }
}

/// The registry after the keyboard part of a handle with view `h` is released.
pub open spec fn release_keyboard_spec(v: RegistryView, h: (bool, bool)) -> RegistryView {
    if h.0 {
        release_spec(v, HookKind::Keyboard)
    } else {
        v
    }
}

/// The registry after a whole handle with view `h` is released.
pub open spec fn release_hook_spec(v: RegistryView, h: (bool, bool)) -> RegistryView {
    let w = release_keyboard_spec(v, h);
    if h.1 {
        release_spec(w, HookKind::Mouse)
    } else {
        w
    }
}

/// The tokens, keyboard first, that releasing a handle with view `h` hands to the OS.
pub open spec fn release_hook_tokens(v: RegistryView, h: (bool, bool)) -> Seq<usize> {
    let w = release_keyboard_spec(v, h);
    opt_seq(
        if h.0 {
            slot_release_token(slot_of(v, HookKind::Keyboard))
        } else {
            None
        },
    ) + opt_seq(
        if h.1 {
            slot_release_token(slot_of(w, HookKind::Mouse))
        } else {
            None
        },
    )
}

impl Hook {
    /// Each part of the handle shares the context of its own kind.
    pub closed spec fn wf(&self) -> bool {
        &&& (self.keyboard matches Some(k) ==> k@ == HookKind::Keyboard)
        &&& (self.mouse matches Some(m) ==> m@ == HookKind::Mouse)
    }

    pub(crate) fn from_parts(keyboard: Option<InnerHook>, mouse: Option<InnerHook>) -> (r: Hook)
        requires
            keyboard matches Some(k) ==> k@ == HookKind::Keyboard,
            mouse matches Some(m) ==> m@ == HookKind::Mouse,
        ensures
            r.wf(),
            r@ == (keyboard.is_some(), mouse.is_some()),
    {
        Hook { keyboard, mouse }
    }

    /// Takes the oldest waiting event without blocking.
    pub fn try_recv(&self, registry: &mut HookRegistry) -> (r: Result<KeyCode, TryRecvError>)
        requires
            old(registry).wf(),
        ensures
            final(registry).wf(),
            r == try_recv_spec(old(registry)@),
            final(registry)@ == try_recv_state_spec(old(registry)@),
    {
        InnerHook::try_recv(registry)
    }

    /// Hands the handle back to the registry and gives the tokens to unregister, keyboard
    /// first: one for each kind whose last handle this was and whose registration succeeded.
    pub fn release(self, registry: &mut HookRegistry) -> (r: Vec<usize>)
        requires
            old(registry).wf(),
            self.wf(),
        ensures
            final(registry).wf(),
            final(registry)@ == release_hook_spec(old(registry)@, self@),
            r@ == release_hook_tokens(old(registry)@, self@),
    {
        let mut r: Vec<usize> = Vec::new();
        let Hook { keyboard, mouse } = self;
        match keyboard {
            Some(k) => {
                match registry.release(k) {
                    Some(t) => r.push(t),
                    None => {},
                }
            },
            None => {},
        }
        match mouse {
            Some(m) => {
                match registry.release(m) {
                    Some(t) => r.push(t),
                    None => {},
                }
            },
            None => {},
        }
        proof {
            assert(r@ =~= release_hook_tokens(old(registry)@, self@));
        }
        r
    }
}

} // verus!
