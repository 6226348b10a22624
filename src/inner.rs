use vstd::prelude::*;

use crate::event::{HookKind, KeyCode, callback_event, callback_event_spec};
use crate::raw::RawHook;
use std::collections::VecDeque;

verus! {

/// Why `try_recv` returned no event.
#[derive(Clone, Copy, Debug, PartialEq, Eq, Structural)]
pub enum TryRecvError {
    /// No event is waiting, but a live hook may still send one.
    Empty,
    /// No hook is live, so no event can ever arrive.
    Disconnected,
}

/// The abstract state of one hook kind's slot.
pub struct SlotView {
    /// Outstanding handles sharing the kind's hook context.
    pub strong: nat,
    /// Whether the live context has attempted its OS registration.
    pub attempted: bool,
    /// The registration token, zero when unset.
    pub token: usize,
    /// Hook contexts created for this kind so far (one OS registration each).
    pub contexts: nat,
    /// Hook contexts torn down so far.
    pub retired: nat,
    /// OS unregistration calls handed out so far.
    pub unhooks: nat,
}

/// The abstract state of the whole registry: one slot per kind and the shared event queue.
pub struct RegistryView {
    pub keyboard: SlotView,
    pub mouse: SlotView,
    pub events: Seq<KeyCode>,
}

/// A slot is consistent: no registration without a live context, no token without a
/// registration, exactly one context alive while handles are held, at most one unregistration
/// per retired context.
pub open spec fn slot_wf(s: SlotView) -> bool {
    &&& (s.strong == 0 ==> !s.attempted)
    &&& (!s.attempted ==> s.token == 0)
    &&& s.contexts == s.retired + (if s.strong > 0 { 1nat } else { 0nat })
    &&& s.unhooks <= s.retired
}

/// The slot of `kind`.
pub open spec fn slot_of(v: RegistryView, kind: HookKind) -> SlotView {
    match kind {
        HookKind::Keyboard => v.keyboard,
        HookKind::Mouse => v.mouse,
    }
}

/// The registry with the slot of `kind` replaced by `s`.
pub open spec fn with_slot(v: RegistryView, kind: HookKind, s: SlotView) -> RegistryView {
    match kind {
        HookKind::Keyboard => RegistryView { keyboard: s, ..v },
        HookKind::Mouse => RegistryView { mouse: s, ..v },
    }
}

/// A hook of `kind` is live: some handle to its context is still held.
pub open spec fn present(v: RegistryView, kind: HookKind) -> bool {
    slot_of(v, kind).strong > 0
}

/// Some hook, of either kind, is live.
pub open spec fn any_live(v: RegistryView) -> bool {
    present(v, HookKind::Keyboard) || present(v, HookKind::Mouse)
}

/// Well-formedness: each slot is consistent, and events only wait while some hook is live.
pub open spec fn registry_wf(v: RegistryView) -> bool {
    &&& slot_wf(v.keyboard)
    &&& slot_wf(v.mouse)
    &&& (!any_live(v) ==> v.events.len() == 0)
}

/// Attach to the live context, or create a fresh one whose registration is pending.
pub open spec fn slot_setup(s: SlotView) -> SlotView {
    if s.strong > 0 {
        SlotView { strong: s.strong + 1, ..s }
    } else {
        SlotView { strong: 1, attempted: false, token: 0, contexts: s.contexts + 1, ..s }
    }
}

/// The registering thread reports its result; only a pending registration takes it.
pub open spec fn slot_register(s: SlotView, handle: usize) -> SlotView {
    if s.strong > 0 && !s.attempted {
        SlotView { attempted: true, token: handle, ..s }
    } else {
        s
    }
}

/// What releasing one handle leaves behind: the last one retires the context.
pub open spec fn slot_release(s: SlotView) -> SlotView {
    if s.strong == 0 {
        s
    } else if s.strong > 1 {
        SlotView { strong: (s.strong - 1) as nat, ..s }
    } else {
        SlotView {
            strong: 0,
            attempted: false,
            token: 0,
            retired: s.retired + 1,
            unhooks: if s.token != 0 { s.unhooks + 1 } else { s.unhooks },
            ..s
        }
    }
}

/// The token that releasing one handle hands to the OS for unregistration.
pub open spec fn slot_release_token(s: SlotView) -> Option<usize> {
    if s.strong == 1 && s.token != 0 {
        Some(s.token)
    } else {
        None
    }
}

/// A request for the hook of `kind`.
pub open spec fn setup_spec(v: RegistryView, kind: HookKind) -> RegistryView {
    with_slot(v, kind, slot_setup(slot_of(v, kind)))
}

/// The registration result for `kind` arrives.
pub open spec fn register_spec(v: RegistryView, kind: HookKind, handle: usize) -> RegistryView {
    with_slot(v, kind, slot_register(slot_of(v, kind), handle))
}

/// Releasing one handle of `kind`; once no hook is live the pending events are dropped.
pub open spec fn release_spec(v: RegistryView, kind: HookKind) -> RegistryView {
    let w = with_slot(v, kind, slot_release(slot_of(v, kind)));
    if any_live(w) {
        w
    } else {
        RegistryView { events: Seq::empty(), ..w }
    }
}

/// One invocation of the hook callback for `kind`.
pub open spec fn callback_spec(v: RegistryView, kind: HookKind, code: i32, action: usize) -> RegistryView {
    match callback_event_spec(kind, code, present(v, kind), action) {
        Some(k) => RegistryView { events: v.events.push(k), ..v },
        None => v,
    }
}

/// The state after one non-blocking receive.
pub open spec fn try_recv_state_spec(v: RegistryView) -> RegistryView {
    if v.events.len() > 0 {
        RegistryView { events: v.events.drop_first(), ..v }
    } else {
        v
    }
}

/// The result of one non-blocking receive.
pub open spec fn try_recv_spec(v: RegistryView) -> Result<KeyCode, TryRecvError> {
    if v.events.len() > 0 {
        Ok(v.events[0])
    } else if any_live(v) {
        Err(TryRecvError::Empty)
    } else {
        Err(TryRecvError::Disconnected)
    }
}

struct Slot {
    strong: u64,
    attempted: bool,
    raw: RawHook,
    contexts: Ghost<nat>,
    retired: Ghost<nat>,
    unhooks: Ghost<nat>,
}

impl View for Slot {
    type V = SlotView;

    closed spec fn view(&self) -> SlotView {
        SlotView {
            strong: self.strong as nat,
            attempted: self.attempted,
            token: self.raw@,
            contexts: self.contexts@,
            retired: self.retired@,
            unhooks: self.unhooks@,
        }
    }
}

impl Slot {
    fn new() -> (r: Slot)
        ensures
            r@ == (SlotView { strong: 0, attempted: false, token: 0, contexts: 0, retired: 0, unhooks: 0 }),
    {
        Slot {
            strong: 0,
            attempted: false,
            raw: RawHook::new(),
            contexts: Ghost(0),
            retired: Ghost(0),
            unhooks: Ghost(0),
        }
    }

    fn setup(&mut self)
        requires
            old(self)@.strong < u64::MAX,
        ensures
            final(self)@ == slot_setup(old(self)@),
    {
        if self.strong > 0 {
            self.strong = self.strong + 1;
        } else {
            self.strong = 1;
            self.attempted = false;
            self.raw = RawHook::new();
            self.contexts = Ghost(self.contexts@ + 1);
        }
    }

    fn register(&mut self, handle: usize)
        ensures
            final(self)@ == slot_register(old(self)@, handle),
    {
        if self.strong > 0 && !self.attempted {
            self.attempted = true;
            self.raw.set(handle);
        }
    }

    fn release(&mut self) -> (r: Option<usize>)
        requires
            slot_wf(old(self)@),
        ensures
            r == slot_release_token(old(self)@),
            final(self)@ == slot_release(old(self)@),
    {
        if self.strong == 0 {
            None
        } else if self.strong > 1 {
            self.strong = self.strong - 1;
            None
        } else {
            self.strong = 0;
            self.attempted = false;
            self.retired = Ghost(self.retired@ + 1);
            let r = self.raw.teardown();
            if r.is_some() {
                self.unhooks = Ghost(self.unhooks@ + 1);
            }
            r
        }
    }
}

/// A slot that has never held a hook.
pub open spec fn empty_slot() -> SlotView {
    SlotView { strong: 0, attempted: false, token: 0, contexts: 0, retired: 0, unhooks: 0 }
}

/// Process-wide hook state: one slot per hook kind, each counting the handles that share the
/// kind's context and holding its registration token, and the queue of events that the hook
/// callbacks produced and no receiver has taken yet.
pub struct HookRegistry {
    keyboard: Slot,
    mouse: Slot,
    events: VecDeque<KeyCode>,
}

impl View for HookRegistry {
    type V = RegistryView;

    closed spec fn view(&self) -> RegistryView {
        RegistryView { keyboard: self.keyboard@, mouse: self.mouse@, events: self.events@ }
    }
}

/// One strong reference to the live hook context of a kind. It is created only by the
/// registry, and handed back to it by `HookRegistry::release`.
pub struct InnerHook {
    kind: HookKind,
}

impl View for InnerHook {
    type V = HookKind;

    closed spec fn view(&self) -> HookKind {
        self.kind
    }
}

impl HookRegistry {
    /// The registry's state is well formed.
    pub open spec fn wf(&self) -> bool {
        registry_wf(self@)
    }

    /// A registry with no hook and no event.
    pub fn new() -> (r: HookRegistry)
        ensures
            r.wf(),
            r@ == (RegistryView { keyboard: empty_slot(), mouse: empty_slot(), events: Seq::empty() }),
    {
        HookRegistry { keyboard: Slot::new(), mouse: Slot::new(), events: VecDeque::new() }
    }

    /// Whether a hook of `kind` is live.
    pub fn is_hook_present(&self, kind: HookKind) -> (r: bool)
        ensures
            r == present(self@, kind),
    {
        match kind {
            HookKind::Keyboard => self.keyboard.strong > 0,
            HookKind::Mouse => self.mouse.strong > 0,
        }
    }

    /// How many handles share the context of `kind`.
    pub fn strong_count(&self, kind: HookKind) -> (r: u64)
        ensures
            r as nat == slot_of(self@, kind).strong,
    {
        match kind {
            HookKind::Keyboard => self.keyboard.strong,
            HookKind::Mouse => self.mouse.strong,
        }
    }

    /// Whether the live context of `kind` still waits for its registration result.
    pub fn registration_pending(&self, kind: HookKind) -> (r: bool)
        ensures
            r == (slot_of(self@, kind).strong > 0 && !slot_of(self@, kind).attempted),
    {
        match kind {
            HookKind::Keyboard => self.keyboard.strong > 0 && !self.keyboard.attempted,
            HookKind::Mouse => self.mouse.strong > 0 && !self.mouse.attempted,
        }
    }

    /// The registration token of the context of `kind`, zero when unset.
    pub fn token(&self, kind: HookKind) -> (r: usize)
        ensures
            r == slot_of(self@, kind).token,
    {
        match kind {
            HookKind::Keyboard => self.keyboard.raw.get(),
            HookKind::Mouse => self.mouse.raw.get(),
        }
    }

    /// Records what the OS registration of a pending context of `kind` returned: zero for a
    /// failed registration, which leaves the hook inert.
    pub fn record_registration(&mut self, kind: HookKind, handle: usize)
        requires
            old(self).wf(),
        ensures
            final(self).wf(),
            final(self)@ == register_spec(old(self)@, kind, handle),
    {
        match kind {
            HookKind::Keyboard => self.keyboard.register(handle),
            HookKind::Mouse => self.mouse.register(handle),
        }
    }

    /// Runs the decision of the hook callback for `kind` and queues the event it yields.
    /// The caller forwards the raw event to the next hook whatever this returns.
    pub fn on_callback(&mut self, kind: HookKind, code: i32, action: usize) -> (r: Option<KeyCode>)
        requires
            old(self).wf(),
        ensures
            final(self).wf(),
            r == callback_event_spec(kind, code, present(old(self)@, kind), action),
            final(self)@ == callback_spec(old(self)@, kind, code, action),
    {
        let live = self.is_hook_present(kind);
        let r = callback_event(kind, code, live, action);
        match r {
            Some(k) => self.events.push_back(k),
            None => {},
        }
        r
    }

    /// Hands back one handle. Releasing the last handle of a kind retires its context and
    /// gives the token to unregister, if registration succeeded; once no hook is live, the
    /// waiting events are dropped.
    pub fn release(&mut self, hook: InnerHook) -> (r: Option<usize>)
        requires
            old(self).wf(),
        ensures
            final(self).wf(),
            r == slot_release_token(slot_of(old(self)@, hook@)),
            final(self)@ == release_spec(old(self)@, hook@),
    {
        let r = match hook.kind {
            HookKind::Keyboard => self.keyboard.release(),
            HookKind::Mouse => self.mouse.release(),
        };
        if !self.is_hook_present(HookKind::Keyboard) && !self.is_hook_present(HookKind::Mouse) {
            self.events.clear();
        }
        proof {
            assert(self@ =~= release_spec(old(self)@, hook@));
        }
        r
    }
}

impl InnerHook {
    /// The kind of hook this handle shares.
    pub fn kind(&self) -> (r: HookKind)
        ensures
            r == self@,
    {
        self.kind
    }

    /// Takes the oldest waiting event without blocking: `Empty` when none waits but a hook is
    /// live, `Disconnected` when no hook is live.
    pub fn try_recv(registry: &mut HookRegistry) -> (r: Result<KeyCode, TryRecvError>)
        requires
            old(registry).wf(),
        ensures
            final(registry).wf(),
            r == try_recv_spec(old(registry)@),
            final(registry)@ == try_recv_state_spec(old(registry)@),
    {
        match registry.events.pop_front() {
            Some(k) => {
                proof {
                    assert(registry@ =~= try_recv_state_spec(old(registry)@));
                }
                Ok(k)
            },
            None => {
                if registry.is_hook_present(HookKind::Keyboard) || registry.is_hook_present(
                    HookKind::Mouse,
                ) {
                    Err(TryRecvError::Empty)
                } else {
                    Err(TryRecvError::Disconnected)
                }
            },
        }
    }
}

/// Whether a hook of `kind` is live.
pub fn is_hook_present(registry: &HookRegistry, kind: HookKind) -> (r: bool)
    ensures
        r == present(registry@, kind),
{
    registry.is_hook_present(kind)
}

/// Attaches to the live context of `kind`, or creates a fresh one whose registration is then
/// pending. The check and the creation happen under one borrow of the registry, so two callers
/// never both create.
pub fn setup_hook(registry: &mut HookRegistry, kind: HookKind) -> (r: InnerHook)
    requires
        old(registry).wf(),
        slot_of(old(registry)@, kind).strong < u64::MAX,
    ensures
        final(registry).wf(),
        r@ == kind,
        final(registry)@ == setup_spec(old(registry)@, kind),
{
    match kind {
        HookKind::Keyboard => registry.keyboard.setup(),
        HookKind::Mouse => registry.mouse.setup(),
    }
    InnerHook { kind }
}

/// Requests the keyboard hook: `None` when one is already live, else a handle to a fresh
/// context whose registration is pending.
pub fn setup_keyboard_hook(registry: &mut HookRegistry) -> (r: Option<InnerHook>)
    requires
        old(registry).wf(),
    ensures
        final(registry).wf(),
        r.is_some() == !present(old(registry)@, HookKind::Keyboard),
        r.is_none() ==> final(registry)@ == old(registry)@,
        r matches Some(h) ==> h@ == HookKind::Keyboard && final(registry)@ == setup_spec(
            old(registry)@,
            HookKind::Keyboard,
        ),
{
    if is_hook_present(registry, HookKind::Keyboard) {
        None
    } else {
        Some(setup_hook(registry, HookKind::Keyboard))
    }
}

/// Requests the mouse hook: `None` when one is already live, else a handle to a fresh
/// context whose registration is pending.
pub fn setup_mouse_hook(registry: &mut HookRegistry) -> (r: Option<InnerHook>)
    requires
        old(registry).wf(),
    ensures
        final(registry).wf(),
        r.is_some() == !present(old(registry)@, HookKind::Mouse),
        r.is_none() ==> final(registry)@ == old(registry)@,
        r matches Some(h) ==> h@ == HookKind::Mouse && final(registry)@ == setup_spec(
            old(registry)@,
            HookKind::Mouse,
        ),
{
    if is_hook_present(registry, HookKind::Mouse) {
        None
    } else {
        Some(setup_hook(registry, HookKind::Mouse))
    }
}

} // verus!
