//! Decisions of the low-level keyboard hook: which key events update the
//! tracked modifier state, and when a key press is the translation hotkey
//! (Ctrl + Alt + T) that must be swallowed and reported.

use vstd::prelude::*;

verus! {

/// What the keyboard hook reports to the monitor.
#[derive(Debug, Clone, Copy, PartialEq, Eq, Structural)]
pub enum KeyEvent {
    TranslateSelection,
}

/// Virtual-key code of the hotkey's letter key, `T`.
pub const HOTKEY_VK: u32 = 0x54;

/// `WM_KEYDOWN`.
pub const WM_KEYDOWN: u32 = 0x0100;

/// `WM_SYSKEYDOWN` (a key pressed while Alt is held).
pub const WM_SYSKEYDOWN: u32 = 0x0104;

/// Virtual-key codes of Control: generic, left, right.
pub open spec fn is_ctrl_vk(vk: u32) -> bool {
    vk == 0x11 || vk == 0xA2 || vk == 0xA3
}

/// Virtual-key codes of Alt (menu): generic, left, right.
pub open spec fn is_alt_vk(vk: u32) -> bool {
    vk == 0x12 || vk == 0xA4 || vk == 0xA5
}

/// The modifier keys as last seen by the hook.
#[derive(Debug, Clone, Copy, PartialEq, Eq, Structural)]
pub struct ModifierState {
    pub ctrl_down: bool,
    pub alt_down: bool,
}

/// What the hook does with one key event.
#[derive(Debug, Clone, Copy, PartialEq, Eq, Structural)]
pub enum HookDecision {
    /// Hand the event on to the next hook.
    PassThrough,
    /// Report the hotkey and swallow the event.
    Trigger,
    /// The hotkey letter was pressed but the tracked modifiers are not both
    /// down: ask the system whether Ctrl and Alt are physically held.
    CheckPhysicalModifiers,
}

/// Whether a hook message is a key press (`WM_KEYDOWN` or `WM_SYSKEYDOWN`).
pub open spec fn is_keydown_message(message: u32) -> bool {
    message == WM_KEYDOWN || message == WM_SYSKEYDOWN
}

/// The decision for one event, given the modifier state before it.
pub open spec fn hook_decision(
    before: ModifierState,
    code: i32,
    injected: bool,
    vk_code: u32,
    message: u32,
) -> HookDecision {
    if code < 0 || injected {
        HookDecision::PassThrough
    } else if vk_code == HOTKEY_VK && is_keydown_message(message) {
        if before.ctrl_down && before.alt_down {
            HookDecision::Trigger
        } else {
            HookDecision::CheckPhysicalModifiers
        }
    } else {
        HookDecision::PassThrough
    }
}

/// The modifier state after one event.
pub open spec fn synced_state(before: ModifierState, vk_code: u32, is_keydown: bool) -> ModifierState {
    if is_ctrl_vk(vk_code) {
        ModifierState { ctrl_down: is_keydown, alt_down: before.alt_down }
    } else if is_alt_vk(vk_code) {
        ModifierState { ctrl_down: before.ctrl_down, alt_down: is_keydown }
    } else {
        before
    }
}

impl ModifierState {
    /// Nothing held.
    pub fn new() -> (r: Self)
        ensures
            !r.ctrl_down,
            !r.alt_down,
    {
        ModifierState { ctrl_down: false, alt_down: false }
    }

    /// Record a Control or Alt key going down or up; other keys leave the
    /// state as it is.
    pub fn sync_modifier_state(&mut self, vk_code: u32, is_keydown: bool)
        ensures
            *final(self) == synced_state(*old(self), vk_code, is_keydown),
    {
        if vk_code == 0xA2 || vk_code == 0xA3 || vk_code == 0x11 {
            self.ctrl_down = is_keydown;
        } else if vk_code == 0xA4 || vk_code == 0xA5 || vk_code == 0x12 {
            self.alt_down = is_keydown;
        }
    }

    /// Handle one low-level keyboard event: `code` is the hook code,
    /// `injected` whether the event was synthesised, `message` the window
    /// message. Events with a negative code or that were injected are passed
    /// on untouched; others update the modifier state first.
    pub fn on_key(&mut self, code: i32, injected: bool, vk_code: u32, message: u32) -> (r:
        HookDecision)
        ensures
            r == hook_decision(*old(self), code, injected, vk_code, message),
            *final(self) == if code < 0 || injected {
                *old(self)
            } else {
                synced_state(*old(self), vk_code, is_keydown_message(message))
            },
    {
        if code < 0 || injected {
            return HookDecision::PassThrough;
        }
        let is_keydown = message == WM_KEYDOWN || message == WM_SYSKEYDOWN;
        let before = *self;
        self.sync_modifier_state(vk_code, is_keydown);
        if vk_code == HOTKEY_VK && is_keydown {
            if before.ctrl_down && before.alt_down {
                HookDecision::Trigger
            } else {
                HookDecision::CheckPhysicalModifiers
            }
        } else {
            HookDecision::PassThrough
        }
    }
}

/// Settle a `CheckPhysicalModifiers` decision with the physical key state.
pub fn confirm_with_physical_state(modifiers_physically_down: bool) -> (r: HookDecision)
    ensures
        r == if modifiers_physically_down {
            HookDecision::Trigger
        } else {
            HookDecision::PassThrough
        },
{
    if modifiers_physically_down {
        HookDecision::Trigger
    } else {
        HookDecision::PassThrough
    }
}

/// Whether a `GetAsyncKeyState` result says the key is held (its high bit).
pub fn is_key_down(state: i16) -> (r: bool)
    ensures
        r == (state < 0),
{
    let bits = state as u16;
    assert((state as u16) & 0x8000u16 != 0 <==> state < 0) by (bit_vector);
    bits & 0x8000 != 0
}

/// Whether Control and Alt are both physically held, given the key states
/// of Control (generic, left, right) and of Alt (generic, left, right).
pub fn hotkey_modifiers_down(ctrl_states: [i16; 3], alt_states: [i16; 3]) -> (r: bool)
    ensures
        r == ((ctrl_states[0] < 0 || ctrl_states[1] < 0 || ctrl_states[2] < 0) && (alt_states[0]
            < 0 || alt_states[1] < 0 || alt_states[2] < 0)),
{
    let ctrl_down = is_key_down(ctrl_states[0]) || is_key_down(ctrl_states[1]) || is_key_down(
        ctrl_states[2],
    );
    let alt_down = is_key_down(alt_states[0]) || is_key_down(alt_states[1]) || is_key_down(
        alt_states[2],
    );
    ctrl_down && alt_down
}

/// Only a press of the hotkey letter can lead to a report: every other
/// event, whatever the modifier state, is passed on.
pub proof fn law_only_hotkey_letter_triggers(
    before: ModifierState,
    code: i32,
    injected: bool,
    vk_code: u32,
    message: u32,
)
    requires
        hook_decision(before, code, injected, vk_code, message) != HookDecision::PassThrough,
    ensures
        code >= 0,
        !injected,
        vk_code == HOTKEY_VK,
        is_keydown_message(message),
{
}

/// Pressing Control and Alt (in either order) and then the hotkey letter
/// triggers without asking for the physical key state.
pub proof fn law_tracked_chord_triggers(start: ModifierState, ctrl_vk: u32, alt_vk: u32)
    requires
        is_ctrl_vk(ctrl_vk),
        is_alt_vk(alt_vk),
    ensures
        ({
            let s1 = synced_state(start, ctrl_vk, true);
            let s2 = synced_state(s1, alt_vk, true);
            hook_decision(s2, 0, false, HOTKEY_VK, WM_KEYDOWN) == HookDecision::Trigger
        }),
        ({
            let s1 = synced_state(start, alt_vk, true);
            let s2 = synced_state(s1, ctrl_vk, true);
            hook_decision(s2, 0, false, HOTKEY_VK, WM_SYSKEYDOWN) == HookDecision::Trigger
        }),
{
}

/// Releasing a modifier clears it: after Control goes up, the hotkey letter
/// no longer triggers on tracked state alone.
pub proof fn law_released_modifier_needs_physical_check(start: ModifierState, ctrl_vk: u32)
    requires
        is_ctrl_vk(ctrl_vk),
    ensures
        hook_decision(synced_state(start, ctrl_vk, false), 0, false, HOTKEY_VK, WM_KEYDOWN)
            == HookDecision::CheckPhysicalModifiers,
{
}

/// The hotkey is Ctrl + Alt + T: a press of the letter triggers on tracked
/// state alone only when both Control and Alt are tracked as held. With
/// either one not tracked (Ctrl+T, Alt+T, or T alone) the press is never
/// swallowed on tracked state; the physical key state is asked instead.
pub proof fn law_trigger_needs_ctrl_and_alt(
    before: ModifierState,
    code: i32,
    injected: bool,
    vk_code: u32,
    message: u32,
)
    ensures
        hook_decision(before, code, injected, vk_code, message) == HookDecision::Trigger
            ==> before.ctrl_down && before.alt_down,
        code >= 0 && !injected && vk_code == HOTKEY_VK && (message == WM_KEYDOWN || message
            == WM_SYSKEYDOWN) ==> hook_decision(before, code, injected, vk_code, message) == if before.ctrl_down
            && before.alt_down {
            HookDecision::Trigger
        } else {
            HookDecision::CheckPhysicalModifiers
        },
{
}

} // verus!
