//! Target resolution and icon acquisition for a desktop launcher.
//!
//! The launcher keeps a catalogue of files, folders, shortcuts and
//! addresses, shows each with an icon, and starts it on request. This crate
//! holds the rules: where a shortcut leads, what kind of thing a target is,
//! in which order the sources of an icon are tried, and what is started how.
//! It touches neither the disk nor the network nor other processes. Its
//! callers look things up and hand in what they found; the crate answers
//! with a plan, and the callers carry the plan out.
//!
//! Texts are modelled as sequences of characters, and every function states
//! its result over that model. A few operations are done by other crates:
//! lowercase by the standard library, Base64 by `base64`, PNG and ICO by
//! `image`, addresses by `url`, and the calendar by `chrono`. Their results
//! enter the contracts under names of their own.
//!
//! - [`paths`], [`text`], [`arguments`]: paths, lines and argument strings.
//! - [`shortcut`], [`classify`], [`inspector`]: from a path to its target,
//!   its kind and its catalogue entry.
//! - [`icons`], [`bitmap`], [`archive`], [`encoding`], [`favicon`],
//!   [`shell`]: the icon of a target.
//! - [`launcher`]: the plan for starting a target.
//! - [`models`], [`settings`], [`storage`], [`backup`], [`tray`],
//!   [`window_manager`]: the catalogue, the settings and the windows.

pub mod archive;
pub mod arguments;
pub mod backup;
pub mod bitmap;
pub mod classify;
pub mod encoding;
pub mod favicon;
pub mod icons;
pub mod inspector;
pub mod launcher;
pub mod models;
pub mod paths;
pub mod platform;
pub mod settings;
pub mod shell;
pub mod shortcut;
pub mod storage;
pub mod text;
pub mod tray;
pub mod window_manager;
