//! The tray menu and the visibility of the main window: what an event
//! leads to. The windows themselves belong to the caller.

use vstd::prelude::*;
use crate::text::{chars_of, is_literal};

verus! {

/// What a tray menu entry asks for.
#[derive(Clone, Copy, Debug, PartialEq, Eq, Structural)]
pub enum TrayAction {
    /// Switch between hiding and keeping the main window when it loses the
    /// focus.
    TogglePreventAutoHide,
    /// Show the settings.
    ShowSettings,
    /// End the launcher.
    Quit,
    /// Nothing: the entry is not one of the menu.
    Ignore,
}

/// What is to be done to a window.
#[derive(Clone, Copy, Debug, PartialEq, Eq, Structural)]
pub struct WindowChange {
    /// Whether the window is to be visible afterwards.
    pub show: bool,
    /// Whether it is to get the focus.
    pub focus: bool,
    /// Whether it is to be left out of the task bar.
    pub skip_taskbar: bool,
}

/// An entry of the tray menu.
#[derive(Debug, PartialEq)]
pub struct TrayItem {
    pub id: String,
    pub text: String,
}

/// The tool tip of the tray icon.
pub const TRAY_TOOLTIP: &'static str = "Lora Launcher";

/// The label of the main window.
pub const MAIN_WINDOW: &'static str = "main";

/// The label of the settings window.
pub const SETTINGS_WINDOW: &'static str = "settings";

/// The identifier of the tray icon.
pub const TRAY_ID: &'static str = "main_tray";

/// The action that a menu entry stands for.
pub open spec fn tray_action_of(id: Seq<char>) -> TrayAction {
    if id == "prevent_auto_hide"@ {
        TrayAction::TogglePreventAutoHide
    } else if id == "settings"@ {
        TrayAction::ShowSettings
    } else if id == "quit"@ {
        TrayAction::Quit
    } else {
        TrayAction::Ignore
    }
}

/// The action that the tray menu entry with the given identifier stands
/// for.
pub fn handle_tray_menu_event(id: &str) -> (action: TrayAction)
    ensures
        action == tray_action_of(id@),
{
    let i = chars_of(id);
    if is_literal(&i, "prevent_auto_hide") {
        TrayAction::TogglePreventAutoHide
    } else if is_literal(&i, "settings") {
        TrayAction::ShowSettings
    } else if is_literal(&i, "quit") {
        TrayAction::Quit
    } else {
        TrayAction::Ignore
    }
}

/// The text of the entry that shows whether the main window stays when it
/// loses the focus.
pub open spec fn toggle_text_of(prevent_auto_hide: bool) -> Seq<char> {
    if prevent_auto_hide {
        "✓ 阻止自动隐藏"@
    } else {
        "○ 阻止自动隐藏"@
    }
}

/// The entries of the tray menu, from top to bottom, as identifier and
/// text.
pub open spec fn tray_menu_of(prevent_auto_hide: bool) -> Seq<(Seq<char>, Seq<char>)> {
    seq![
        ("prevent_auto_hide"@, toggle_text_of(prevent_auto_hide)),
        ("settings"@, "设置"@),
        ("quit"@, "退出"@),
    ]
}

/// The entries of a menu as identifier and text.
pub open spec fn item_views(items: Seq<TrayItem>) -> Seq<(Seq<char>, Seq<char>)> {
    Seq::new(items.len(), |i: int| (items[i].id@, items[i].text@))
}

/// The entries of the tray menu: the switch for hiding, marked as it
/// stands, then the settings, then the end of the launcher.
pub fn update_tray_menu(prevent_auto_hide: bool) -> (items: Vec<TrayItem>)
    ensures
        item_views(items@) == tray_menu_of(prevent_auto_hide),
{
    let toggle = if prevent_auto_hide {
        "✓ 阻止自动隐藏"
    } else {
        "○ 阻止自动隐藏"
    };
    let mut items: Vec<TrayItem> = Vec::new();
    items.push(TrayItem { id: "prevent_auto_hide".to_owned(), text: toggle.to_owned() });
    items.push(TrayItem { id: "settings".to_owned(), text: "设置".to_owned() });
    items.push(TrayItem { id: "quit".to_owned(), text: "退出".to_owned() });
    assert(item_views(items@) =~= tray_menu_of(prevent_auto_hide));
    items
}

/// What the global hot key does: when it is pressed, it switches the main
/// window between shown and hidden; when it is released, nothing happens.
pub fn create_global_shortcut_handler(pressed: bool, visible: bool) -> (change: Option<
    WindowChange,
>)
    ensures
        change == (if pressed {
            Some(WindowChange { show: !visible, focus: !visible, skip_taskbar: !visible })
        } else {
            None
        }),
{
    if pressed {
        Some(toggle_window_visibility(visible))
    } else {
        None
    }
}

/// What switching does to the main window: a visible window is hidden and
/// shown in the task bar, a hidden one is shown, focused and taken out of
/// the task bar.
pub fn toggle_window_visibility(visible: bool) -> (change: WindowChange)
    ensures
        change == (WindowChange { show: !visible, focus: !visible, skip_taskbar: !visible }),
{
    WindowChange { show: !visible, focus: !visible, skip_taskbar: !visible }
}

/// What a click on the tray icon does to the main window: a click with the
/// left button shows and focuses it, any other click does nothing.
pub fn handle_tray_icon_event(left_button: bool) -> (change: Option<WindowChange>)
    ensures
        change == (if left_button {
            Some(WindowChange { show: true, focus: true, skip_taskbar: true })
        } else {
            None
        }),
{
    if left_button {
        Some(WindowChange { show: true, focus: true, skip_taskbar: true })
    } else {
        None
    }
}

/// The window that the settings entry of the tray menu brings up: the
/// settings window where it exists, the main window in its place where
/// that exists, and none otherwise.
pub fn tray_settings_window(settings_exists: bool, main_exists: bool) -> (label: Option<
    &'static str,
>)
    ensures
        settings_exists ==> label == Some(SETTINGS_WINDOW),
        !settings_exists && main_exists ==> label == Some(MAIN_WINDOW),
        !settings_exists && !main_exists ==> label is None,
{
    if settings_exists {
        Some(SETTINGS_WINDOW)
    } else if main_exists {
        Some(MAIN_WINDOW)
    } else {
        None
    }
}

} // verus!
