//! The records that the launcher keeps: catalogue entries, categories and
//! settings.

use vstd::prelude::*;

verus! {

/// Version of the application and the dates that go with it.
#[derive(Debug, PartialEq)]
pub struct VersionInfo {
    pub version: String,
    pub update_date: String,
    pub last_sync: String,
}

/// One catalogue entry: a file, folder, shortcut or address that the user
/// added.
#[derive(Clone, Debug, PartialEq)]
pub struct AppData {
    pub id: i64,
    pub name: String,
    pub category: String,
    pub icon: String,
    /// The path as the user gave it.
    pub path: String,
    /// Where a shortcut leads.
    pub target_path: Option<String>,
    pub is_shortcut: bool,
    /// Arguments handed to the target when it is launched.
    pub launch_args: Option<String>,
    /// `file`, `folder` or `url`.
    pub target_type: Option<String>,
}

/// A category of catalogue entries.
#[derive(Clone, Debug, PartialEq)]
pub struct CategoryData {
    pub id: String,
    pub name: String,
    pub icon: String,
    pub is_default: bool,
}

/// The settings of the application.
#[derive(Clone, Debug, PartialEq)]
pub struct AppSettings {
    pub prevent_auto_hide: bool,
    pub window_width: Option<u32>,
    pub window_height: Option<u32>,
    pub theme: Option<String>,
    pub icon_size: Option<u32>,
    pub sidebar_width: Option<u32>,
    pub enable_animations: Option<bool>,
    pub animation_speed: Option<String>,
    pub start_with_system: Option<bool>,
    pub start_minimized: Option<bool>,
    pub auto_hide_after_launch: Option<bool>,
    pub toggle_hotkey: Option<String>,
    pub global_hotkey: Option<bool>,
    pub fuzzy_search: Option<bool>,
    pub search_in_path: Option<bool>,
    pub max_search_results: Option<u32>,
    pub auto_backup: Option<bool>,
    pub backup_interval: Option<String>,
    pub active_tab: Option<String>,
    pub last_selected_category: Option<String>,
    pub window_position_x: Option<i32>,
    pub window_position_y: Option<i32>,
    pub last_search_query: Option<String>,
    pub grid_view_enabled: Option<bool>,
    /// `name`, `date_added`, `date_modified` or `frequency`.
    pub sort_order: Option<String>,
    pub show_hidden_files: Option<bool>,
}

/// Everything that is stored of the catalogue.
#[derive(Debug, PartialEq)]
pub struct AppStorage {
    pub apps: Vec<AppData>,
    pub categories: Vec<CategoryData>,
    /// The category that was selected last.
    pub selected_category: Option<String>,
}

} // verus!
