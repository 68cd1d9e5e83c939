//! Default settings and the updates that the settings views apply.

use vstd::prelude::*;
use crate::models::AppSettings;
use crate::text::opt_view;

verus! {

/// The settings of a fresh installation.
pub fn get_default_settings() -> (s: AppSettings)
    ensures
        !s.prevent_auto_hide,
        s.window_width == Some(800u32),
        s.window_height == Some(600u32),
        opt_view(s.theme) == Some("auto"@),
        s.icon_size == Some(64u32),
        s.sidebar_width == Some(180u32),
        s.enable_animations == Some(true),
        opt_view(s.animation_speed) == Some("normal"@),
        s.start_with_system == Some(false),
        s.start_minimized == Some(false),
        s.auto_hide_after_launch == Some(false),
        opt_view(s.toggle_hotkey) == Some("Ctrl+Space"@),
        s.global_hotkey == Some(true),
        s.fuzzy_search == Some(true),
        s.search_in_path == Some(false),
        s.max_search_results == Some(20u32),
        s.auto_backup == Some(true),
        opt_view(s.backup_interval) == Some("weekly"@),
        opt_view(s.active_tab) == Some("about"@),
        s.last_selected_category is None,
        s.window_position_x is None,
        s.window_position_y is None,
        s.last_search_query is None,
        s.grid_view_enabled == Some(false),
        opt_view(s.sort_order) == Some("name"@),
        s.show_hidden_files == Some(false),
{
    AppSettings {
        prevent_auto_hide: false,
        window_width: Some(800),
        window_height: Some(600),
        theme: Some("auto".to_owned()),
        icon_size: Some(64),
        sidebar_width: Some(180),
        enable_animations: Some(true),
        animation_speed: Some("normal".to_owned()),
        start_with_system: Some(false),
        start_minimized: Some(false),
        auto_hide_after_launch: Some(false),
        toggle_hotkey: Some("Ctrl+Space".to_owned()),
        global_hotkey: Some(true),
        fuzzy_search: Some(true),
        search_in_path: Some(false),
        max_search_results: Some(20),
        auto_backup: Some(true),
        backup_interval: Some("weekly".to_owned()),
        active_tab: Some("about".to_owned()),
        last_selected_category: None,
        window_position_x: None,
        window_position_y: None,
        last_search_query: None,
        grid_view_enabled: Some(false),
        sort_order: Some("name".to_owned()),
        show_hidden_files: Some(false),
    }
}

/// Sets whether the main window stays when it loses the focus.
pub fn update_prevent_auto_hide(settings: &mut AppSettings, prevent_auto_hide: bool)
    ensures
        *final(settings) == (AppSettings { prevent_auto_hide: prevent_auto_hide, ..*old(settings) }),
{
    settings.prevent_auto_hide = prevent_auto_hide;
}

/// Sets the colour theme.
pub fn update_theme(settings: &mut AppSettings, theme: String)
    ensures
        *final(settings) == (AppSettings { theme: Some(theme), ..*old(settings) }),
{
    settings.theme = Some(theme);
}

/// Sets the size of the icons.
pub fn update_icon_size(settings: &mut AppSettings, icon_size: u32)
    ensures
        *final(settings) == (AppSettings { icon_size: Some(icon_size), ..*old(settings) }),
{
    settings.icon_size = Some(icon_size);
}

/// Sets the width of the side bar.
pub fn update_sidebar_width(settings: &mut AppSettings, sidebar_width: u32)
    ensures
        *final(settings) == (AppSettings { sidebar_width: Some(sidebar_width), ..*old(settings) }),
{
    settings.sidebar_width = Some(sidebar_width);
}

/// Turns the animations on or off.
pub fn update_animations(settings: &mut AppSettings, enable_animations: bool)
    ensures
        *final(settings) == (AppSettings { enable_animations: Some(enable_animations), ..*old(settings) }),
{
    settings.enable_animations = Some(enable_animations);
}

/// Sets the speed of the animations.
pub fn update_animation_speed(settings: &mut AppSettings, animation_speed: String)
    ensures
        *final(settings) == (AppSettings { animation_speed: Some(animation_speed), ..*old(settings) }),
{
    settings.animation_speed = Some(animation_speed);
}

/// Sets whether the launcher starts at sign-in. On Windows the registry is
/// to be brought in line with `set_auto_start_windows` of the shell module.
pub fn update_start_with_system(settings: &mut AppSettings, start_with_system: bool)
    ensures
        *final(settings) == (AppSettings { start_with_system: Some(start_with_system), ..*old(settings) }),
{
    settings.start_with_system = Some(start_with_system);
}

/// Sets whether the launcher starts out of sight.
pub fn update_start_minimized(settings: &mut AppSettings, start_minimized: bool)
    ensures
        *final(settings) == (AppSettings { start_minimized: Some(start_minimized), ..*old(settings) }),
{
    settings.start_minimized = Some(start_minimized);
}

/// Sets whether the main window hides after a launch.
pub fn update_auto_hide_after_launch(settings: &mut AppSettings, auto_hide_after_launch: bool)
    ensures
        *final(settings) == (AppSettings { auto_hide_after_launch: Some(auto_hide_after_launch), ..*old(settings) }),
{
    settings.auto_hide_after_launch = Some(auto_hide_after_launch);
}

/// Turns fuzzy search on or off.
pub fn update_fuzzy_search(settings: &mut AppSettings, fuzzy_search: bool)
    ensures
        *final(settings) == (AppSettings { fuzzy_search: Some(fuzzy_search), ..*old(settings) }),
{
    settings.fuzzy_search = Some(fuzzy_search);
}

/// Sets whether the search looks at paths too.
pub fn update_search_in_path(settings: &mut AppSettings, search_in_path: bool)
    ensures
        *final(settings) == (AppSettings { search_in_path: Some(search_in_path), ..*old(settings) }),
{
    settings.search_in_path = Some(search_in_path);
}

/// Sets how many results the search shows.
pub fn update_max_search_results(settings: &mut AppSettings, max_search_results: u32)
    ensures
        *final(settings) == (AppSettings { max_search_results: Some(max_search_results), ..*old(settings) }),
{
    settings.max_search_results = Some(max_search_results);
}

/// Turns the backups on or off.
pub fn update_auto_backup(settings: &mut AppSettings, auto_backup: bool)
    ensures
        *final(settings) == (AppSettings { auto_backup: Some(auto_backup), ..*old(settings) }),
{
    settings.auto_backup = Some(auto_backup);
}

/// Sets the interval of the backups: `daily`, `weekly` or `monthly`.
pub fn update_backup_interval(settings: &mut AppSettings, backup_interval: String)
    ensures
        *final(settings) == (AppSettings { backup_interval: Some(backup_interval), ..*old(settings) }),
{
    settings.backup_interval = Some(backup_interval);
}

/// Puts the default settings in place of the current ones.
pub fn reset_settings_to_default(settings: &mut AppSettings)
    ensures
        final(settings).window_width == Some(800u32),
        final(settings).window_height == Some(600u32),
        !final(settings).prevent_auto_hide,
        opt_view(final(settings).theme) == Some("auto"@),
        opt_view(final(settings).toggle_hotkey) == Some("Ctrl+Space"@),
        opt_view(final(settings).backup_interval) == Some("weekly"@),
{
    *settings = get_default_settings();
}

/// Records the size of the main window.
pub fn save_window_size(settings: &mut AppSettings, width: u32, height: u32)
    ensures
        *final(settings) == (AppSettings {
            window_width: Some(width),
            window_height: Some(height),
            ..*old(settings)
        }),
{
    settings.window_width = Some(width);
    settings.window_height = Some(height);
}

/// The state of the views, as far as it is to be recorded. What is `None`
/// is left as it was.
#[derive(Debug, PartialEq)]
pub struct UiState {
    pub active_tab: Option<String>,
    pub last_selected_category: Option<String>,
    pub window_position_x: Option<i32>,
    pub window_position_y: Option<i32>,
    pub last_search_query: Option<String>,
    pub grid_view_enabled: Option<bool>,
    pub sort_order: Option<String>,
    pub show_hidden_files: Option<bool>,
}

/// Changes to the settings that arrive together. What is `None` is left as
/// it was.
#[derive(Debug, PartialEq)]
pub struct SettingsUpdate {
    pub prevent_auto_hide: Option<bool>,
    pub window_width: Option<u64>,
    pub window_height: Option<u64>,
    pub theme: Option<String>,
    pub icon_size: Option<u64>,
    pub sidebar_width: Option<u64>,
    pub enable_animations: Option<bool>,
    pub animation_speed: Option<String>,
    pub start_with_system: Option<bool>,
    pub start_minimized: Option<bool>,
    pub auto_hide_after_launch: Option<bool>,
    pub toggle_hotkey: Option<String>,
    pub global_hotkey: Option<bool>,
    pub fuzzy_search: Option<bool>,
    pub search_in_path: Option<bool>,
    pub max_search_results: Option<u64>,
    pub auto_backup: Option<bool>,
    pub backup_interval: Option<String>,
}

/// A setting after an update: the new value where there is one, the old
/// one otherwise.
pub open spec fn merged<T>(old_value: Option<T>, new_value: Option<T>) -> Option<T> {
    match new_value {
        Some(v) => Some(v),
        None => old_value,
    }
}

/// A number cut down to its lowest 32 bits.
pub open spec fn low_bits(v: u64) -> u32 {
    (v % 0x1_0000_0000) as u32
}

/// A setting after an update with a wide number.
pub open spec fn merged_low_bits(old_value: Option<u32>, new_value: Option<u64>) -> Option<u32> {
    match new_value {
        Some(v) => Some(low_bits(v)),
        None => old_value,
    }
}

/// A setting after an update.
fn merge<T>(old_value: &mut Option<T>, new_value: Option<T>)
    ensures
        *final(old_value) == merged(*old(old_value), new_value),
{
    match new_value {
        Some(v) => {
            *old_value = Some(v);
        },
        None => {},
    }
}

/// A setting after an update with a wide number.
fn merge_low_bits(old_value: &mut Option<u32>, new_value: Option<u64>)
    ensures
        *final(old_value) == merged_low_bits(*old(old_value), new_value),
{
    match new_value {
        Some(v) => {
            *old_value = Some((v % 0x1_0000_0000) as u32);
        },
        None => {},
    }
}

/// Records the state of the views.
pub fn save_ui_state(settings: &mut AppSettings, state: UiState)
    ensures
        *final(settings) == (AppSettings {
            active_tab: merged(old(settings).active_tab, state.active_tab),
            last_selected_category: merged(
                old(settings).last_selected_category,
                state.last_selected_category,
            ),
            window_position_x: merged(old(settings).window_position_x, state.window_position_x),
            window_position_y: merged(old(settings).window_position_y, state.window_position_y),
            last_search_query: merged(old(settings).last_search_query, state.last_search_query),
            grid_view_enabled: merged(old(settings).grid_view_enabled, state.grid_view_enabled),
            sort_order: merged(old(settings).sort_order, state.sort_order),
            show_hidden_files: merged(old(settings).show_hidden_files, state.show_hidden_files),
            ..*old(settings)
        }),
{
    merge(&mut settings.active_tab, state.active_tab);
    merge(&mut settings.last_selected_category, state.last_selected_category);
    merge(&mut settings.window_position_x, state.window_position_x);
    merge(&mut settings.window_position_y, state.window_position_y);
    merge(&mut settings.last_search_query, state.last_search_query);
    merge(&mut settings.grid_view_enabled, state.grid_view_enabled);
    merge(&mut settings.sort_order, state.sort_order);
    merge(&mut settings.show_hidden_files, state.show_hidden_files);
}

/// Applies changes that arrive together. Numbers wider than 32 bits are
/// cut down to their lowest 32 bits.
pub fn update_settings_batch(settings: &mut AppSettings, update: SettingsUpdate)
    ensures
        *final(settings) == (AppSettings {
            prevent_auto_hide: match update.prevent_auto_hide {
                Some(v) => v,
                None => old(settings).prevent_auto_hide,
            },
            window_width: merged_low_bits(old(settings).window_width, update.window_width),
            window_height: merged_low_bits(old(settings).window_height, update.window_height),
            theme: merged(old(settings).theme, update.theme),
            icon_size: merged_low_bits(old(settings).icon_size, update.icon_size),
            sidebar_width: merged_low_bits(old(settings).sidebar_width, update.sidebar_width),
            enable_animations: merged(old(settings).enable_animations, update.enable_animations),
            animation_speed: merged(old(settings).animation_speed, update.animation_speed),
            start_with_system: merged(old(settings).start_with_system, update.start_with_system),
            start_minimized: merged(old(settings).start_minimized, update.start_minimized),
            auto_hide_after_launch: merged(
                old(settings).auto_hide_after_launch,
                update.auto_hide_after_launch,
            ),
            toggle_hotkey: merged(old(settings).toggle_hotkey, update.toggle_hotkey),
            global_hotkey: merged(old(settings).global_hotkey, update.global_hotkey),
            fuzzy_search: merged(old(settings).fuzzy_search, update.fuzzy_search),
            search_in_path: merged(old(settings).search_in_path, update.search_in_path),
            max_search_results: merged_low_bits(
                old(settings).max_search_results,
                update.max_search_results,
            ),
            auto_backup: merged(old(settings).auto_backup, update.auto_backup),
            backup_interval: merged(old(settings).backup_interval, update.backup_interval),
            ..*old(settings)
        }),
{
    match update.prevent_auto_hide {
        Some(v) => {
            settings.prevent_auto_hide = v;
        },
        None => {},
    }
    merge_low_bits(&mut settings.window_width, update.window_width);
    merge_low_bits(&mut settings.window_height, update.window_height);
    merge(&mut settings.theme, update.theme);
    merge_low_bits(&mut settings.icon_size, update.icon_size);
    merge_low_bits(&mut settings.sidebar_width, update.sidebar_width);
    merge(&mut settings.enable_animations, update.enable_animations);
    merge(&mut settings.animation_speed, update.animation_speed);
    merge(&mut settings.start_with_system, update.start_with_system);
    merge(&mut settings.start_minimized, update.start_minimized);
    merge(&mut settings.auto_hide_after_launch, update.auto_hide_after_launch);
    merge(&mut settings.toggle_hotkey, update.toggle_hotkey);
    merge(&mut settings.global_hotkey, update.global_hotkey);
    merge(&mut settings.fuzzy_search, update.fuzzy_search);
    merge(&mut settings.search_in_path, update.search_in_path);
    merge_low_bits(&mut settings.max_search_results, update.max_search_results);
    merge(&mut settings.auto_backup, update.auto_backup);
    merge(&mut settings.backup_interval, update.backup_interval);
}

/// What is to happen to the global hot keys after a change of settings.
#[derive(Debug, PartialEq)]
pub struct HotkeyPlan {
    /// The hot key to withdraw, where it is one.
    pub unregister: Option<String>,
    /// The hot key to register. The change fails when it is none.
    pub register: Option<String>,
}

/// The text of a hot key that is set and not empty.
pub open spec fn active_hotkey(hotkey: Option<String>) -> Option<String> {
    match hotkey {
        Some(text) => if text@.len() > 0 {
            Some(text)
        } else {
            None
        },
        None => None,
    }
}

/// Whether the hot key works everywhere; it does unless that was turned
/// off.
pub open spec fn is_global(global_hotkey: Option<bool>) -> bool {
    match global_hotkey {
        Some(v) => v,
        None => true,
    }
}

/// The text of a hot key that is set and not empty.
fn active(hotkey: &Option<String>) -> (r: Option<String>)
    ensures
        r == active_hotkey(*hotkey),
{
    match hotkey {
        Some(text) => if text.as_str().is_empty() {
            None
        } else {
            Some(text.clone())
        },
        None => None,
    }
}

/// Sets the hot key that shows and hides the main window. The old hot key
/// is to be withdrawn, and the new one registered where hot keys work
/// everywhere.
pub fn update_toggle_hotkey(settings: &mut AppSettings, toggle_hotkey: String) -> (plan: HotkeyPlan)
    ensures
        *final(settings) == (AppSettings { toggle_hotkey: Some(toggle_hotkey), ..*old(settings) }),
        plan.unregister == active_hotkey(old(settings).toggle_hotkey),
        plan.register == (if is_global(old(settings).global_hotkey) {
            active_hotkey(Some(toggle_hotkey))
        } else {
            None
        }),
{
    let unregister = active(&settings.toggle_hotkey);
    let global = match settings.global_hotkey {
        Some(v) => v,
        None => true,
    };
    let new_hotkey = Some(toggle_hotkey);
    let register = if global {
        active(&new_hotkey)
    } else {
        None
    };
    settings.toggle_hotkey = new_hotkey;
    HotkeyPlan { unregister, register }
}

/// Sets whether the hot key works everywhere, and says what is to happen
/// to the hot key that is set.
pub fn update_global_hotkey(settings: &mut AppSettings, global_hotkey: bool) -> (plan: HotkeyPlan)
    ensures
        *final(settings) == (AppSettings { global_hotkey: Some(global_hotkey), ..*old(settings) }),
        plan.register == (if global_hotkey {
            active_hotkey(old(settings).toggle_hotkey)
        } else {
            None
        }),
        plan.unregister == (if global_hotkey {
            None
        } else {
            active_hotkey(old(settings).toggle_hotkey)
        }),
{
    settings.global_hotkey = Some(global_hotkey);
    if global_hotkey {
        HotkeyPlan { unregister: None, register: active(&settings.toggle_hotkey) }
    } else {
        HotkeyPlan { unregister: active(&settings.toggle_hotkey), register: None }
    }
}

/// The hot key to register when the launcher starts.
pub fn initialize_global_shortcuts(settings: &AppSettings) -> (register: Option<String>)
    ensures
        register == (if is_global(settings.global_hotkey) {
            active_hotkey(settings.toggle_hotkey)
        } else {
            None
        }),
{
    let global = match settings.global_hotkey {
        Some(v) => v,
        None => true,
    };
    if global {
        active(&settings.toggle_hotkey)
    } else {
        None
    }
}

/// What is reported when a hot key cannot be read.
pub const INVALID_HOTKEY: &'static str = "快捷键格式无效";

} // verus!
