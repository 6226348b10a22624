use vstd::prelude::*;

use crate::event::{HookKind, callback_event_spec};
use crate::hook::opt_seq;
use crate::inner::{
    RegistryView, TryRecvError, callback_spec, present, registry_wf, release_spec, setup_spec,
    slot_of, slot_release_token, try_recv_spec,
};

verus! {

/// The registry after `n` requests for a hook of `kind`, one after another.
pub open spec fn setups(v: RegistryView, kind: HookKind, n: nat) -> RegistryView
    decreases n,
{
    if n == 0 {
        v
    } else {
        setups(setup_spec(v, kind), kind, (n - 1) as nat)
    }
}

/// The registry after `n` handles of `kind` are released, one after another.
pub open spec fn releases(v: RegistryView, kind: HookKind, n: nat) -> RegistryView
    decreases n,
{
    if n == 0 {
        v
    } else {
        releases(release_spec(v, kind), kind, (n - 1) as nat)
    }
}

/// The tokens handed out for unregistration while `n` handles of `kind` are released.
pub open spec fn release_tokens(v: RegistryView, kind: HookKind, n: nat) -> Seq<usize>
    decreases n,
{
    if n == 0 {
        Seq::empty()
    } else {
        opt_seq(slot_release_token(slot_of(v, kind))) + release_tokens(
            release_spec(v, kind),
            kind,
            (n - 1) as nat,
        )
    }
}

/// The kind that is not `kind`.
pub open spec fn other_kind(kind: HookKind) -> HookKind {
    match kind {
        HookKind::Keyboard => HookKind::Mouse,
        HookKind::Mouse => HookKind::Keyboard,
    }
}

/// While a hook of `kind` is live, any number of further requests for it create no context,
/// so no further OS registration happens: each request only adds a handle to the live one.
pub proof fn lemma_setup_while_live_registers_nothing(v: RegistryView, kind: HookKind, n: nat)
    requires
        registry_wf(v),
        present(v, kind),
    ensures
        registry_wf(setups(v, kind, n)),
        slot_of(setups(v, kind, n), kind).contexts == slot_of(v, kind).contexts,
        slot_of(setups(v, kind, n), kind).strong == slot_of(v, kind).strong + n,
        slot_of(setups(v, kind, n), kind).attempted == slot_of(v, kind).attempted,
        slot_of(setups(v, kind, n), kind).token == slot_of(v, kind).token,
        slot_of(setups(v, kind, n), other_kind(kind)) == slot_of(v, other_kind(kind)),
        setups(v, kind, n).events == v.events,
    decreases n,
{
    if n > 0 {
        lemma_setup_while_live_registers_nothing(setup_spec(v, kind), kind, (n - 1) as nat);
    }
}

proof fn lemma_release_all(v: RegistryView, kind: HookKind, n: nat)
    requires
        registry_wf(v),
        n > 0,
        slot_of(v, kind).strong == n,
    ensures
        registry_wf(releases(v, kind, n)),
        slot_of(releases(v, kind, n), kind).strong == 0,
        slot_of(releases(v, kind, n), kind).contexts == slot_of(v, kind).contexts,
        slot_of(releases(v, kind, n), kind).retired == slot_of(v, kind).retired + 1,
        slot_of(v, kind).token != 0 ==> slot_of(releases(v, kind, n), kind).unhooks
            == slot_of(v, kind).unhooks + 1,
        slot_of(v, kind).token != 0 ==> release_tokens(v, kind, n) == seq![slot_of(v, kind).token],
    decreases n,
{
    let w = release_spec(v, kind);
    assert(releases(v, kind, n) == releases(w, kind, (n - 1) as nat));
    if n > 1 {
        lemma_release_all(w, kind, (n - 1) as nat);
    } else {
        assert(releases(w, kind, 0) == w);
        assert(release_tokens(w, kind, 0) == Seq::<usize>::empty());
        if slot_of(v, kind).token != 0 {
            assert(release_tokens(v, kind, n) =~= seq![slot_of(v, kind).token]);
        }
    }
}

/// Releasing every outstanding handle of a kind whose registration succeeded hands out
/// exactly one token for unregistration, the registered one; a request after that creates a
/// fresh context whose registration is pending.
pub proof fn lemma_release_all_unhooks_once(v: RegistryView, kind: HookKind)
    requires
        registry_wf(v),
        present(v, kind),
        slot_of(v, kind).token != 0,
    ensures
        ({
            let n = slot_of(v, kind).strong;
            let w = releases(v, kind, n);
            let fresh = setup_spec(w, kind);
            &&& release_tokens(v, kind, n) == seq![slot_of(v, kind).token]
            &&& slot_of(w, kind).unhooks == slot_of(v, kind).unhooks + 1
            &&& !present(w, kind)
            &&& slot_of(fresh, kind).contexts == slot_of(v, kind).contexts + 1
            &&& slot_of(fresh, kind).strong == 1
            &&& !slot_of(fresh, kind).attempted
        }),
{
    lemma_release_all(v, kind, slot_of(v, kind).strong);
}

/// A callback invocation with a negative filter code queues no event.
pub proof fn lemma_negative_code_sends_nothing(
    v: RegistryView,
    kind: HookKind,
    code: i32,
    action: usize,
)
    requires
        code < 0,
    ensures
        callback_event_spec(kind, code, present(v, kind), action).is_none(),
        callback_spec(v, kind, code, action) == v,
{
}

/// Receiving on a handle that was just created, before any callback ran, reports `Empty`.
pub proof fn lemma_fresh_handle_receives_empty(v: RegistryView, kind: HookKind)
    requires
        registry_wf(v),
        v.events.len() == 0,
    ensures
        try_recv_spec(setup_spec(v, kind)) == Err::<crate::event::KeyCode, TryRecvError>(
            TryRecvError::Empty,
        ),
{
}

/// Once the last live handle is released, receiving reports `Disconnected` at once.
pub proof fn lemma_last_release_disconnects(v: RegistryView, kind: HookKind)
    requires
        registry_wf(v),
        slot_of(v, kind).strong == 1,
        !present(v, other_kind(kind)),
    ensures
        try_recv_spec(release_spec(v, kind)) == Err::<crate::event::KeyCode, TryRecvError>(
            TryRecvError::Disconnected,
        ),
{
}

} // verus!
