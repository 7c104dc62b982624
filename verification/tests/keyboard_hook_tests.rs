use cn2en::{
    confirm_with_physical_state, hotkey_modifiers_down, is_key_down, HookDecision, ModifierState,
    HOTKEY_VK, WM_KEYDOWN, WM_SYSKEYDOWN,
};

const WM_KEYUP: u32 = 0x0101;

#[test]
fn sync_tracks_ctrl_and_alt() {
    let mut s = ModifierState::new();
    s.sync_modifier_state(0xA2, true);
    assert!(s.ctrl_down && !s.alt_down);
    s.sync_modifier_state(0x12, true);
    assert!(s.ctrl_down && s.alt_down);
    s.sync_modifier_state(0x11, false);
    assert!(!s.ctrl_down && s.alt_down);
    s.sync_modifier_state(0xA5, false);
    assert!(!s.ctrl_down && !s.alt_down);
    s.sync_modifier_state(0x41, true);
    assert_eq!(s, ModifierState::new());
}

#[test]
fn chord_triggers() {
    let mut s = ModifierState::new();
    assert_eq!(s.on_key(0, false, 0xA3, WM_KEYDOWN), HookDecision::PassThrough);
    assert_eq!(s.on_key(0, false, 0xA4, WM_SYSKEYDOWN), HookDecision::PassThrough);
    assert_eq!(s.on_key(0, false, HOTKEY_VK, WM_SYSKEYDOWN), HookDecision::Trigger);
}

#[test]
fn hotkey_letter_without_tracked_modifiers_asks_physical_state() {
    let mut s = ModifierState::new();
    assert_eq!(s.on_key(0, false, HOTKEY_VK, WM_KEYDOWN), HookDecision::CheckPhysicalModifiers);
    assert_eq!(confirm_with_physical_state(true), HookDecision::Trigger);
    assert_eq!(confirm_with_physical_state(false), HookDecision::PassThrough);
}

#[test]
fn key_up_and_injected_and_negative_code_pass_through() {
    let mut s = ModifierState { ctrl_down: true, alt_down: true };
    assert_eq!(s.on_key(0, false, HOTKEY_VK, WM_KEYUP), HookDecision::PassThrough);
    assert_eq!(s.on_key(0, true, HOTKEY_VK, WM_KEYDOWN), HookDecision::PassThrough);
    assert_eq!(s.on_key(-1, false, HOTKEY_VK, WM_KEYDOWN), HookDecision::PassThrough);
    // Injected events do not touch the tracked state.
    s.on_key(0, true, 0x11, WM_KEYUP);
    assert!(s.ctrl_down);
    // A key-up message releases the modifier.
    s.on_key(0, false, 0x11, WM_KEYUP);
    assert!(!s.ctrl_down);
}

#[test]
fn other_letters_pass_through() {
    let mut s = ModifierState { ctrl_down: true, alt_down: true };
    assert_eq!(s.on_key(0, false, 0x41, WM_KEYDOWN), HookDecision::PassThrough);
}

#[test]
fn physical_key_state() {
    assert!(is_key_down(i16::MIN));
    assert!(is_key_down(-32767));
    assert!(!is_key_down(0));
    assert!(!is_key_down(1));
    assert!(hotkey_modifiers_down([0, -32768, 0], [0, 0, -1]));
    assert!(!hotkey_modifiers_down([0, 0, 0], [-1, -1, -1]));
    assert!(!hotkey_modifiers_down([-1, 0, 0], [1, 0, 0]));
}
