//! The tray icon's rules: its id, the ids of icons to clear at start-up, the
//! tooltip for each state, what a menu item does, and which click toggles.

use vstd::prelude::*;

verus! {

/// The tray icon's id, distinct from the id `main` that a default tray
/// icon would carry.
pub fn tray_id() -> (r: String)
    ensures
        r@ == "cn2en"@,
{
    String::from_str("cn2en")
}

/// The ids of tray icons removed before the icon is created: its own id and
/// `main` (every icon with either id is removed).
pub fn tray_ids_to_clear() -> (r: Vec<String>)
    ensures
        r@.len() == 2,
        r@[0]@ == "cn2en"@,
        r@[1]@ == "main"@,
{
    let mut v: Vec<String> = Vec::new();
    v.push(tray_id());
    v.push(String::from_str("main"));
    v
}

/// The tooltip shown while translation is switched on or off.
pub open spec fn tooltip_text(enabled: bool) -> Seq<char> {
    if enabled {
        "划译 - 已启用"@
    } else {
        "划译 - 已暂停"@
    }
}

/// `tooltip_text`, as a string.
pub fn tray_tooltip(enabled: bool) -> (r: String)
    ensures
        r@ == tooltip_text(enabled),
{
    if enabled {
        String::from_str("划译 - 已启用")
    } else {
        String::from_str("划译 - 已暂停")
    }
}

/// What a tray menu item does.
#[derive(Debug, Clone, Copy, PartialEq, Eq, Structural)]
pub enum TrayMenuAction {
    OpenSettings,
    Quit,
    Nothing,
}

/// The menu item ids and labels: `settings` (设置) and `quit` (退出).
pub fn menu_items() -> (r: Vec<(String, String)>)
    ensures
        r@.len() == 2,
        r@[0].0@ == "settings"@ && r@[0].1@ == "设置"@,
        r@[1].0@ == "quit"@ && r@[1].1@ == "退出"@,
{
    let mut v: Vec<(String, String)> = Vec::new();
    v.push((String::from_str("settings"), String::from_str("设置")));
    v.push((String::from_str("quit"), String::from_str("退出")));
    v
}

/// The action for the menu item with id `id`.
pub fn menu_action(id: &str) -> (r: TrayMenuAction)
    ensures
        r == if id@ == "settings"@ {
            TrayMenuAction::OpenSettings
        } else if id@ == "quit"@ {
            TrayMenuAction::Quit
        } else {
            TrayMenuAction::Nothing
        },
{
    let id = String::from_str(id);
    if id == String::from_str("settings") {
        TrayMenuAction::OpenSettings
    } else if id == String::from_str("quit") {
        TrayMenuAction::Quit
    } else {
        TrayMenuAction::Nothing
    }
}

/// Whether a click on the icon toggles translation: a left-button click,
/// when the button comes up.
pub fn click_toggles(left_button: bool, button_released: bool) -> (r: bool)
    ensures
        r == (left_button && button_released),
{
    left_button && button_released
}

/// The label of the settings window.
pub fn settings_window_label() -> (r: String)
    ensures
        r@ == "settings"@,
{
    String::from_str("settings")
}

/// The title of the settings window.
pub fn settings_window_title() -> (r: String)
    ensures
        r@ == "划译设置"@,
{
    String::from_str("划译设置")
}

} // verus!
