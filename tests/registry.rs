use willhook::event::{
    callback_event, classify_action, classify_button_action, classify_key_action, HookKind,
    KeyCode, WM_KEYDOWN, WM_KEYUP, WM_LBUTTONDOWN, WM_LBUTTONUP, WM_MBUTTONUP, WM_RBUTTONDOWN,
    WM_SYSKEYDOWN, WM_SYSKEYUP, WM_XBUTTONDOWN,
};
use willhook::inner::{
    is_hook_present, setup_hook, setup_keyboard_hook, setup_mouse_hook, HookRegistry, InnerHook,
    TryRecvError,
};
use willhook::raw::RawHook;
use willhook::{keyboard_hook, mouse_hook, willhook};

#[test]
fn key_actions_are_classified() {
    assert_eq!(classify_key_action(WM_KEYDOWN), Some(KeyCode::Down));
    assert_eq!(classify_key_action(WM_SYSKEYDOWN), Some(KeyCode::Down));
    assert_eq!(classify_key_action(WM_KEYUP), Some(KeyCode::Up));
    assert_eq!(classify_key_action(WM_SYSKEYUP), Some(KeyCode::Up));
    assert_eq!(classify_key_action(0x0100), Some(KeyCode::Down));
    assert_eq!(classify_key_action(0x0105), Some(KeyCode::Up));
}

#[test]
fn unknown_key_action_gives_nothing() {
    assert_eq!(classify_key_action(0), None);
    assert_eq!(classify_key_action(0x0102), None);
    assert_eq!(classify_key_action(usize::MAX), None);
}

#[test]
fn button_actions_are_classified() {
    assert_eq!(classify_button_action(WM_LBUTTONDOWN), Some(KeyCode::Down));
    assert_eq!(classify_button_action(WM_RBUTTONDOWN), Some(KeyCode::Down));
    assert_eq!(classify_button_action(WM_XBUTTONDOWN), Some(KeyCode::Down));
    assert_eq!(classify_button_action(WM_LBUTTONUP), Some(KeyCode::Up));
    assert_eq!(classify_button_action(WM_MBUTTONUP), Some(KeyCode::Up));
    assert_eq!(classify_button_action(0x0200), None);
    assert_eq!(classify_button_action(0x020A), None);
}

#[test]
fn action_table_follows_kind() {
    assert_eq!(classify_action(HookKind::Keyboard, WM_KEYDOWN), Some(KeyCode::Down));
    assert_eq!(classify_action(HookKind::Mouse, WM_KEYDOWN), None);
    assert_eq!(classify_action(HookKind::Mouse, WM_LBUTTONUP), Some(KeyCode::Up));
    assert_eq!(classify_action(HookKind::Keyboard, WM_LBUTTONUP), None);
}

#[test]
fn negative_filter_code_sends_nothing() {
    assert_eq!(callback_event(HookKind::Keyboard, -1, true, WM_KEYDOWN), None);
    assert_eq!(callback_event(HookKind::Mouse, -1, true, WM_LBUTTONDOWN), None);
    assert_eq!(callback_event(HookKind::Keyboard, i32::MIN, true, WM_KEYUP), None);
    assert_eq!(callback_event(HookKind::Keyboard, 0, true, WM_KEYUP), Some(KeyCode::Up));
}

#[test]
fn callback_without_live_hook_sends_nothing() {
    assert_eq!(callback_event(HookKind::Keyboard, 0, false, WM_KEYDOWN), None);
    let mut reg = HookRegistry::new();
    assert_eq!(reg.on_callback(HookKind::Keyboard, 0, WM_KEYDOWN), None);
    assert_eq!(InnerHook::try_recv(&mut reg), Err(TryRecvError::Disconnected));
}

#[test]
fn negative_code_on_live_hook_queues_nothing() {
    let mut reg = HookRegistry::new();
    let _k = setup_keyboard_hook(&mut reg).unwrap();
    assert_eq!(reg.on_callback(HookKind::Keyboard, -1, WM_KEYDOWN), None);
    assert_eq!(InnerHook::try_recv(&mut reg), Err(TryRecvError::Empty));
}

#[test]
fn fresh_handle_receives_empty() {
    let mut reg = HookRegistry::new();
    let k = setup_keyboard_hook(&mut reg).unwrap();
    assert_eq!(k.kind(), HookKind::Keyboard);
    assert_eq!(InnerHook::try_recv(&mut reg), Err(TryRecvError::Empty));
    assert_eq!(InnerHook::try_recv(&mut reg), Err(TryRecvError::Empty));
}

#[test]
fn empty_registry_is_disconnected() {
    let mut reg = HookRegistry::new();
    assert_eq!(InnerHook::try_recv(&mut reg), Err(TryRecvError::Disconnected));
    assert!(!reg.is_hook_present(HookKind::Keyboard));
    assert!(!reg.is_hook_present(HookKind::Mouse));
}

#[test]
fn events_arrive_in_order() {
    let mut reg = HookRegistry::new();
    let _k = setup_keyboard_hook(&mut reg).unwrap();
    let _m = setup_mouse_hook(&mut reg).unwrap();
    assert_eq!(reg.on_callback(HookKind::Keyboard, 0, WM_KEYDOWN), Some(KeyCode::Down));
    assert_eq!(reg.on_callback(HookKind::Mouse, 0, WM_LBUTTONUP), Some(KeyCode::Up));
    assert_eq!(reg.on_callback(HookKind::Keyboard, 0, 0x0999), None);
    assert_eq!(reg.on_callback(HookKind::Keyboard, 0, WM_KEYDOWN), Some(KeyCode::Down));
    assert_eq!(InnerHook::try_recv(&mut reg), Ok(KeyCode::Down));
    assert_eq!(InnerHook::try_recv(&mut reg), Ok(KeyCode::Up));
    assert_eq!(InnerHook::try_recv(&mut reg), Ok(KeyCode::Down));
    assert_eq!(InnerHook::try_recv(&mut reg), Err(TryRecvError::Empty));
}

#[test]
fn second_request_while_live_gives_none() {
    let mut reg = HookRegistry::new();
    let k = setup_keyboard_hook(&mut reg);
    assert!(k.is_some());
    assert!(reg.registration_pending(HookKind::Keyboard));
    reg.record_registration(HookKind::Keyboard, 0x77);
    assert!(setup_keyboard_hook(&mut reg).is_none());
    assert!(setup_keyboard_hook(&mut reg).is_none());
    assert_eq!(reg.strong_count(HookKind::Keyboard), 1);
    assert!(!reg.registration_pending(HookKind::Keyboard));
    assert_eq!(reg.token(HookKind::Keyboard), 0x77);
    assert!(setup_mouse_hook(&mut reg).is_some());
}

#[test]
fn attach_while_live_shares_context() {
    let mut reg = HookRegistry::new();
    let a = setup_hook(&mut reg, HookKind::Keyboard);
    reg.record_registration(HookKind::Keyboard, 0x42);
    let b = setup_hook(&mut reg, HookKind::Keyboard);
    let c = setup_hook(&mut reg, HookKind::Keyboard);
    assert_eq!(reg.strong_count(HookKind::Keyboard), 3);
    assert!(!reg.registration_pending(HookKind::Keyboard));
    assert_eq!(reg.token(HookKind::Keyboard), 0x42);
    assert_eq!(reg.release(a), None);
    assert_eq!(reg.release(b), None);
    assert_eq!(reg.release(c), Some(0x42));
}

#[test]
fn release_all_unhooks_once_then_fresh_registration() {
    let mut reg = HookRegistry::new();
    let a = setup_hook(&mut reg, HookKind::Mouse);
    reg.record_registration(HookKind::Mouse, 9);
    let b = setup_hook(&mut reg, HookKind::Mouse);
    let mut tokens = Vec::new();
    for h in [a, b] {
        if let Some(t) = reg.release(h) {
            tokens.push(t);
        }
    }
    assert_eq!(tokens, vec![9]);
    assert!(!is_hook_present(&reg, HookKind::Mouse));
    assert_eq!(reg.token(HookKind::Mouse), 0);
    let again = setup_mouse_hook(&mut reg).unwrap();
    assert!(reg.registration_pending(HookKind::Mouse));
    reg.record_registration(HookKind::Mouse, 10);
    assert_eq!(reg.release(again), Some(10));
}

#[test]
fn failed_registration_is_inert() {
    let mut reg = HookRegistry::new();
    let k = setup_keyboard_hook(&mut reg).unwrap();
    reg.record_registration(HookKind::Keyboard, 0);
    assert!(!reg.registration_pending(HookKind::Keyboard));
    assert!(reg.is_hook_present(HookKind::Keyboard));
    assert_eq!(InnerHook::try_recv(&mut reg), Err(TryRecvError::Empty));
    assert_eq!(reg.release(k), None);
}

#[test]
fn only_pending_registration_is_recorded() {
    let mut reg = HookRegistry::new();
    reg.record_registration(HookKind::Keyboard, 5);
    assert_eq!(reg.token(HookKind::Keyboard), 0);
    let k = setup_keyboard_hook(&mut reg).unwrap();
    reg.record_registration(HookKind::Keyboard, 6);
    reg.record_registration(HookKind::Keyboard, 7);
    assert_eq!(reg.token(HookKind::Keyboard), 6);
    assert_eq!(reg.release(k), Some(6));
}

#[test]
fn last_release_disconnects_and_drops_events() {
    let mut reg = HookRegistry::new();
    let k = setup_keyboard_hook(&mut reg).unwrap();
    reg.record_registration(HookKind::Keyboard, 3);
    reg.on_callback(HookKind::Keyboard, 0, WM_KEYDOWN);
    reg.on_callback(HookKind::Keyboard, 0, WM_KEYUP);
    assert_eq!(reg.release(k), Some(3));
    assert_eq!(InnerHook::try_recv(&mut reg), Err(TryRecvError::Disconnected));
}

#[test]
fn events_stay_while_other_kind_is_live() {
    let mut reg = HookRegistry::new();
    let k = setup_keyboard_hook(&mut reg).unwrap();
    let _m = setup_mouse_hook(&mut reg).unwrap();
    reg.on_callback(HookKind::Keyboard, 0, WM_KEYUP);
    assert_eq!(reg.release(k), None);
    assert_eq!(InnerHook::try_recv(&mut reg), Ok(KeyCode::Up));
    assert_eq!(InnerHook::try_recv(&mut reg), Err(TryRecvError::Empty));
}

#[test]
fn shared_keyboard_handle_sequence() {
    let mut reg = HookRegistry::new();
    let a = setup_hook(&mut reg, HookKind::Keyboard);
    reg.record_registration(HookKind::Keyboard, 0x1000);
    assert!(reg.is_hook_present(HookKind::Keyboard));
    let b = setup_hook(&mut reg, HookKind::Keyboard);
    assert!(reg.is_hook_present(HookKind::Keyboard));
    assert_eq!(reg.strong_count(HookKind::Keyboard), 2);
    assert_eq!(reg.token(HookKind::Keyboard), 0x1000);
    let mut unhooked = Vec::new();
    if let Some(t) = reg.release(a) {
        unhooked.push(t);
    }
    assert!(reg.is_hook_present(HookKind::Keyboard));
    if let Some(t) = reg.release(b) {
        unhooked.push(t);
    }
    assert!(!reg.is_hook_present(HookKind::Keyboard));
    assert_eq!(unhooked, vec![0x1000]);
}

#[test]
fn keyboard_and_mouse_hooks() {
    let mut reg = HookRegistry::new();
    let k = keyboard_hook(&mut reg).unwrap();
    assert!(keyboard_hook(&mut reg).is_none());
    assert!(willhook(&mut reg).is_none());
    let m = mouse_hook(&mut reg).unwrap();
    assert!(mouse_hook(&mut reg).is_none());
    reg.record_registration(HookKind::Keyboard, 1);
    reg.record_registration(HookKind::Mouse, 2);
    assert_eq!(k.release(&mut reg), vec![1]);
    assert_eq!(m.try_recv(&mut reg), Err(TryRecvError::Empty));
    assert_eq!(m.release(&mut reg), vec![2]);
    assert_eq!(InnerHook::try_recv(&mut reg), Err(TryRecvError::Disconnected));
}

#[test]
fn willhook_takes_both_kinds() {
    let mut reg = HookRegistry::new();
    let h = willhook(&mut reg).unwrap();
    assert!(reg.registration_pending(HookKind::Keyboard));
    assert!(reg.registration_pending(HookKind::Mouse));
    assert!(keyboard_hook(&mut reg).is_none());
    assert!(mouse_hook(&mut reg).is_none());
    reg.record_registration(HookKind::Keyboard, 11);
    reg.record_registration(HookKind::Mouse, 12);
    reg.on_callback(HookKind::Mouse, 0, WM_RBUTTONDOWN);
    assert_eq!(h.try_recv(&mut reg), Ok(KeyCode::Down));
    assert_eq!(h.release(&mut reg), vec![11, 12]);
    assert!(willhook(&mut reg).is_some());
}

#[test]
fn raw_hook_teardown_is_idempotent() {
    let mut raw = RawHook::new();
    assert!(!raw.is_set());
    assert_eq!(raw.teardown(), None);
    raw.set(0xABC);
    assert!(raw.is_set());
    assert_eq!(raw.get(), 0xABC);
    assert_eq!(raw.teardown(), Some(0xABC));
    assert_eq!(raw.teardown(), None);
    assert_eq!(raw.get(), 0);
}
