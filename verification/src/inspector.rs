//! Inspection of a path that the user adds to the catalogue: where it
//! leads, what it is, and the record that is kept of it.

use vstd::prelude::*;
use crate::classify::{
    classify, detect_target_type, is_web_address, is_web_url, kind_name, PathProbe, TargetKind,
};
use crate::models::AppData;
use crate::icons::{IconResult, IconView};
use crate::launcher::TargetFacts;
use crate::paths::{file_stem, file_stem_of, lower_extension_of, lowercase_extension};
use crate::shortcut::{is_shortcut, kind_of_path, ShortcutKind};
use crate::text::opt_view;

verus! {

/// Where a path leads and what it is.
#[derive(Debug, PartialEq)]
pub struct TargetDescriptor {
    /// The path as the user gave it.
    pub raw_path: String,
    /// The target behind a shortcut; `None` for what is no shortcut.
    pub resolved_path: Option<String>,
    pub kind: TargetKind,
    /// Whether the path is itself a shortcut container.
    pub is_shortcut: bool,
}

/// What the catalogue records of a file when it is added.
#[derive(Debug, PartialEq)]
pub struct FileInfo {
    pub id: i64,
    pub name: String,
    pub path: String,
    pub extension: String,
    pub size: u64,
    pub is_executable: bool,
    pub is_shortcut: bool,
    pub target_path: Option<String>,
    pub icon: Option<String>,
}

/// Why a path could not be inspected.
#[derive(Clone, Copy, Debug, PartialEq, Eq, Structural)]
pub enum InspectError {
    /// Nothing exists at the path.
    NotFound,
    /// The size of the file could not be read.
    Unreadable,
}

/// The reason in words.
pub open spec fn inspect_message_of(error: InspectError) -> Seq<char> {
    match error {
        InspectError::NotFound => "文件不存在"@,
        InspectError::Unreadable => "获取文件信息失败"@,
    }
}

impl InspectError {
    /// The reason in words, as it is shown to the user.
    pub fn message(&self) -> (text: &'static str)
        ensures
            text@ == inspect_message_of(*self),
    {
        match self {
            InspectError::NotFound => "文件不存在",
            InspectError::Unreadable => "获取文件信息失败",
        }
    }
}

/// The name of an entry whose path has no file name.
pub const UNKNOWN_NAME: &'static str = "未知应用";

/// Whether a path is a shortcut container.
pub open spec fn is_shortcut_path(path: Seq<char>) -> bool {
    kind_of_path(path) != ShortcutKind::NotAShortcut
}

/// Where a path is taken to lead, given whether it is a shortcut: a
/// shortcut leads to its stored target, or to itself when it has none, so
/// that it can always be launched. A path that is no shortcut leads nowhere
/// else.
pub open spec fn resolved_path_for(
    shortcut: bool,
    raw_path: Seq<char>,
    resolved: Option<Seq<char>>,
) -> Option<Seq<char>> {
    if shortcut {
        match resolved {
            Some(target) => Some(target),
            None => Some(raw_path),
        }
    } else {
        None
    }
}

/// Where a path is taken to lead.
pub open spec fn resolved_path_of(raw_path: Seq<char>, resolved: Option<Seq<char>>) -> Option<
    Seq<char>,
> {
    resolved_path_for(is_shortcut_path(raw_path), raw_path, resolved)
}

/// The path whose extension stands for the entry, given whether the path
/// is a shortcut: the target of a shortcut where the target was found and
/// exists, and the path itself otherwise.
pub open spec fn effective_path_for(
    shortcut: bool,
    raw_path: Seq<char>,
    resolved: Option<Seq<char>>,
    target_probe: PathProbe,
) -> Seq<char> {
    if shortcut && resolved is Some && target_probe != PathProbe::Missing {
        resolved->0
    } else {
        raw_path
    }
}

/// The path whose extension stands for the entry.
pub open spec fn effective_path_of(
    raw_path: Seq<char>,
    resolved: Option<Seq<char>>,
    target_probe: PathProbe,
) -> Seq<char> {
    effective_path_for(is_shortcut_path(raw_path), raw_path, resolved, target_probe)
}

/// What the icon of an entry is searched for, given whether the path is a
/// shortcut: the address behind a shortcut that leads to a web address, and
/// the effective path of anything else.
pub open spec fn icon_source_for(
    shortcut: bool,
    raw_path: Seq<char>,
    resolved: Option<Seq<char>>,
    target_probe: PathProbe,
) -> Seq<char> {
    if shortcut && resolved is Some && is_web_address(resolved->0) {
        resolved->0
    } else {
        effective_path_for(shortcut, raw_path, resolved, target_probe)
    }
}

/// What the icon of an entry is searched for.
pub open spec fn icon_source_of(
    raw_path: Seq<char>,
    resolved: Option<Seq<char>>,
    target_probe: PathProbe,
) -> Seq<char> {
    icon_source_for(is_shortcut_path(raw_path), raw_path, resolved, target_probe)
}

/// The path that is launched, given whether the path is a shortcut: the
/// resolved path of a shortcut, and the path itself of anything else.
pub open spec fn launch_target_for(
    shortcut: bool,
    raw_path: Seq<char>,
    resolved: Option<Seq<char>>,
) -> Seq<char> {
    match resolved_path_for(shortcut, raw_path, resolved) {
        Some(target) => target,
        None => raw_path,
    }
}

/// The path that is launched.
pub open spec fn launch_target_of(raw_path: Seq<char>, resolved: Option<Seq<char>>) -> Seq<char> {
    launch_target_for(is_shortcut_path(raw_path), raw_path, resolved)
}

/// What the disk holds at the path that is launched, given whether the
/// path is a shortcut.
pub open spec fn launch_probe_for(
    shortcut: bool,
    probe: PathProbe,
    resolved: Option<Seq<char>>,
    target_probe: PathProbe,
) -> PathProbe {
    if shortcut && resolved is Some {
        target_probe
    } else {
        probe
    }
}

/// What the disk holds at the path that is launched.
pub open spec fn launch_probe_of(
    raw_path: Seq<char>,
    probe: PathProbe,
    resolved: Option<Seq<char>>,
    target_probe: PathProbe,
) -> PathProbe {
    launch_probe_for(is_shortcut_path(raw_path), probe, resolved, target_probe)
}

/// The text under which an icon is stored: the data URI, the tag, or
/// nothing.
pub open spec fn icon_field_of(icon: IconView) -> Option<Seq<char>> {
    match icon {
        IconView::DataUri(uri) => Some(uri),
        IconView::SemanticTag(tag) => Some(tag),
        IconView::Empty => None,
    }
}

/// The name of an entry: the stem of the path as the user gave it.
pub open spec fn entry_name_of(raw_path: Seq<char>) -> Seq<char> {
    match file_stem_of(raw_path) {
        Some(stem) => stem,
        None => UNKNOWN_NAME@,
    }
}

impl TargetDescriptor {
    /// A shortcut always has a resolved path, and nothing else has one.
    pub open spec fn well_formed(&self) -> bool {
        &&& self.is_shortcut == is_shortcut_path(self.raw_path@)
        &&& self.is_shortcut <==> self.resolved_path is Some
    }

    /// The path to launch: the resolved path of a shortcut, the path itself
    /// otherwise.
    pub fn launch_target(&self) -> (target: &String)
        ensures
            target@ == (match self.resolved_path {
                Some(resolved) => resolved@,
                None => self.raw_path@,
            }),
    {
        match &self.resolved_path {
            Some(resolved) => resolved,
            None => &self.raw_path,
        }
    }
}

/// The path whose extension stands for the entry, given whether the path
/// is a shortcut.
pub fn effective_path_for_kind(shortcut: bool, raw_path: &str, facts: &TargetFacts) -> (path:
    String)
    ensures
        path@ == effective_path_for(
            shortcut,
            raw_path@,
            opt_view(facts.resolved),
            facts.target_probe,
        ),
{
    if shortcut {
        match &facts.resolved {
            Some(target) => match facts.target_probe {
                PathProbe::Missing => raw_path.to_owned(),
                _ => target.clone(),
            },
            None => raw_path.to_owned(),
        }
    } else {
        raw_path.to_owned()
    }
}

/// The path whose extension stands for the entry: the target of a
/// shortcut where the target was found and exists, and the path itself
/// otherwise.
pub fn effective_path(raw_path: &str, facts: &TargetFacts) -> (path: String)
    ensures
        path@ == effective_path_of(raw_path@, opt_view(facts.resolved), facts.target_probe),
{
    effective_path_for_kind(is_shortcut(raw_path), raw_path, facts)
}

/// What the icon of an entry is searched for, and whether that is a web
/// address, given whether the path is a shortcut.
pub fn icon_source_for_kind(shortcut: bool, raw_path: &str, facts: &TargetFacts) -> (r: (
    String,
    bool,
))
    ensures
        r.0@ == icon_source_for(shortcut, raw_path@, opt_view(facts.resolved), facts.target_probe),
        r.1 == is_web_address(r.0@),
{
    if shortcut {
        match &facts.resolved {
            Some(target) => {
                if is_web_url(target.as_str()) {
                    return (target.clone(), true);
                }
            },
            None => {},
        }
    }
    let path = effective_path_for_kind(shortcut, raw_path, facts);
    let web = is_web_url(path.as_str());
    (path, web)
}

/// What the icon of an entry is searched for, and whether that is a web
/// address, for which the site is asked.
pub fn icon_source(raw_path: &str, facts: &TargetFacts) -> (r: (String, bool))
    ensures
        r.0@ == icon_source_of(raw_path@, opt_view(facts.resolved), facts.target_probe),
        r.1 == is_web_address(r.0@),
{
    icon_source_for_kind(is_shortcut(raw_path), raw_path, facts)
}

/// Describes a path, given whether it is a shortcut: where it leads, and
/// what kind of thing stands where it leads. A shortcut that could not be
/// resolved leads to itself.
pub fn describe_as(shortcut: bool, raw_path: &str, facts: &TargetFacts) -> (d: TargetDescriptor)
    ensures
        d.is_shortcut == shortcut,
        d.is_shortcut <==> d.resolved_path is Some,
        d.raw_path@ == raw_path@,
        opt_view(d.resolved_path) == resolved_path_for(
            shortcut,
            raw_path@,
            opt_view(facts.resolved),
        ),
        d.kind == classify(
            launch_target_for(shortcut, raw_path@, opt_view(facts.resolved)),
            launch_probe_for(shortcut, facts.probe, opt_view(facts.resolved), facts.target_probe),
        ),
{
    if shortcut {
        match &facts.resolved {
            Some(target) => TargetDescriptor {
                raw_path: raw_path.to_owned(),
                resolved_path: Some(target.clone()),
                kind: detect_target_type(target.as_str(), facts.target_probe),
                is_shortcut: true,
            },
            None => TargetDescriptor {
                raw_path: raw_path.to_owned(),
                resolved_path: Some(raw_path.to_owned()),
                kind: detect_target_type(raw_path, facts.probe),
                is_shortcut: true,
            },
        }
    } else {
        TargetDescriptor {
            raw_path: raw_path.to_owned(),
            resolved_path: None,
            kind: detect_target_type(raw_path, facts.probe),
            is_shortcut: false,
        }
    }
}

/// Describes a path: whether it is a shortcut, where it leads, and what
/// kind of thing stands where it leads. A shortcut that could not be
/// resolved leads to itself.
pub fn describe_target(raw_path: &str, facts: &TargetFacts) -> (d: TargetDescriptor)
    ensures
        d.well_formed(),
        d.raw_path@ == raw_path@,
        opt_view(d.resolved_path) == resolved_path_of(raw_path@, opt_view(facts.resolved)),
        d.kind == classify(
            launch_target_of(raw_path@, opt_view(facts.resolved)),
            launch_probe_of(raw_path@, facts.probe, opt_view(facts.resolved), facts.target_probe),
        ),
{
    describe_as(is_shortcut(raw_path), raw_path, facts)
}

/// The text under which an icon is stored.
pub fn icon_field(icon: IconResult) -> (field: Option<String>)
    ensures
        opt_view(field) == icon_field_of(icon@),
{
    match icon {
        IconResult::DataUri(uri) => Some(uri),
        IconResult::SemanticTag(tag) => Some(tag),
        IconResult::Empty => None,
    }
}

/// The identifier of a new entry: the clock reading in milliseconds.
pub fn entry_id(now_millis: u128) -> (id: i64)
    ensures
        now_millis <= i64::MAX ==> id == now_millis,
        id == (now_millis as i64),
{
    #[verifier::truncate]
    (now_millis as i64)
}

/// Assembles the record of a path that the user adds, given whether the
/// path is a shortcut and the lowercase extension that stands for the
/// entry. The path must exist and its size must be known; `icon` is what
/// the search for the icon of its icon source ended with.
pub fn file_info_from(
    file_path: &str,
    shortcut: bool,
    extension: String,
    facts: &TargetFacts,
    size: Option<u64>,
    icon: IconResult,
    now_millis: u128,
) -> (r: Result<FileInfo, InspectError>)
    ensures
        facts.probe == PathProbe::Missing ==> r == Err::<FileInfo, InspectError>(
            InspectError::NotFound,
        ),
        facts.probe != PathProbe::Missing && size is None ==> r == Err::<FileInfo, InspectError>(
            InspectError::Unreadable,
        ),
        facts.probe != PathProbe::Missing && size is Some ==> r is Ok,
        r matches Ok(info) ==> {
            &&& info.id == entry_id_of(now_millis)
            &&& info.name@ == entry_name_of(file_path@)
            &&& info.path@ == file_path@
            &&& info.extension == extension
            &&& Some(info.size) == size
            &&& info.is_executable
            &&& info.is_shortcut == shortcut
            &&& opt_view(info.target_path) == resolved_path_for(
                shortcut,
                file_path@,
                opt_view(facts.resolved),
            )
            &&& opt_view(info.icon) == icon_field_of(icon@)
        },
{
    match facts.probe {
        PathProbe::Missing => {
            return Err(InspectError::NotFound);
        },
        _ => {},
    }
    let size = match size {
        Some(size) => size,
        None => {
            return Err(InspectError::Unreadable);
        },
    };
    let target_path = if shortcut {
        match &facts.resolved {
            Some(target) => Some(target.clone()),
            None => Some(file_path.to_owned()),
        }
    } else {
        None
    };
    let name = match file_stem(file_path) {
        Some(stem) => stem,
        None => UNKNOWN_NAME.to_owned(),
    };
    Ok(
        FileInfo {
            id: entry_id(now_millis),
            name,
            path: file_path.to_owned(),
            extension,
            size,
            is_executable: true,
            is_shortcut: shortcut,
            target_path,
            icon: icon_field(icon),
        },
    )
}

/// Assembles the record of a path that the user adds. The path must exist
/// and its size must be known; `icon` is what the search for the icon of
/// its icon source ended with.
///
/// The entry is named after the path as given, also where that is a
/// shortcut. Its extension is that of the effective path. Every kind of
/// file may be added, so `is_executable` is always set.
pub fn get_file_info(
    file_path: &str,
    facts: &TargetFacts,
    size: Option<u64>,
    icon: IconResult,
    now_millis: u128,
) -> (r: Result<FileInfo, InspectError>)
    ensures
        facts.probe == PathProbe::Missing ==> r == Err::<FileInfo, InspectError>(
            InspectError::NotFound,
        ),
        facts.probe != PathProbe::Missing && size is None ==> r == Err::<FileInfo, InspectError>(
            InspectError::Unreadable,
        ),
        facts.probe != PathProbe::Missing && size is Some ==> r is Ok,
        r matches Ok(info) ==> {
            &&& info.id == entry_id_of(now_millis)
            &&& info.name@ == entry_name_of(file_path@)
            &&& info.path@ == file_path@
            &&& info.extension@ == lower_extension_of(
                effective_path_of(file_path@, opt_view(facts.resolved), facts.target_probe),
            )
            &&& Some(info.size) == size
            &&& info.is_executable
            &&& info.is_shortcut == is_shortcut_path(file_path@)
            &&& opt_view(info.target_path) == resolved_path_of(
                file_path@,
                opt_view(facts.resolved),
            )
            &&& opt_view(info.icon) == icon_field_of(icon@)
        },
{
    let shortcut = is_shortcut(file_path);
    let effective = effective_path_for_kind(shortcut, file_path, facts);
    let extension = lowercase_extension(effective.as_str());
    file_info_from(file_path, shortcut, extension, facts, size, icon, now_millis)
}

/// The identifier that a clock reading gives.
pub open spec fn entry_id_of(now_millis: u128) -> i64 {
    now_millis as i64
}

/// A descriptor of a shortcut always names a path to launch: the stored
/// target, or the shortcut itself where none was found.
pub proof fn lemma_shortcut_is_launchable(raw_path: Seq<char>, resolved: Option<Seq<char>>)
    requires
        is_shortcut_path(raw_path),
    ensures
        resolved_path_of(raw_path, resolved) is Some,
        resolved is None ==> resolved_path_of(raw_path, resolved) == Some(raw_path),
        resolved is Some ==> resolved_path_of(raw_path, resolved) == resolved,
{
}

/// The text under which the icon of an entry is kept: the icon, or the
/// empty text where there is none.
pub open spec fn record_icon_of(icon: Option<String>) -> Seq<char> {
    match icon {
        Some(text) => text@,
        None => Seq::empty(),
    }
}

/// A copy of an optional text.
fn copy_text(text: &Option<String>) -> (copy: Option<String>)
    ensures
        copy == *text,
{
    match text {
        Some(t) => Some(t.clone()),
        None => None,
    }
}

/// The text under which the icon of an entry is kept.
fn record_icon(icon: &Option<String>) -> (text: String)
    ensures
        text@ == record_icon_of(*icon),
{
    match icon {
        Some(text) => text.clone(),
        None => String::new(),
    }
}

/// The catalogue entry for a file that was inspected and is added now. The
/// entry takes its identifier, its name and everything about its target
/// from the inspection; the category and the arguments come from the user.
pub fn new_record(
    info: &FileInfo,
    kind: TargetKind,
    category: String,
    launch_args: Option<String>,
) -> (record: AppData)
    ensures
        record.id == info.id,
        record.name == info.name,
        record.category == category,
        record.icon@ == record_icon_of(info.icon),
        record.path == info.path,
        record.target_path == info.target_path,
        record.is_shortcut == info.is_shortcut,
        record.launch_args == launch_args,
        opt_view(record.target_type) == Some(kind_name(kind)),
{
    AppData {
        id: info.id,
        name: info.name.clone(),
        category,
        icon: record_icon(&info.icon),
        path: info.path.clone(),
        target_path: copy_text(&info.target_path),
        is_shortcut: info.is_shortcut,
        launch_args,
        target_type: Some(kind.as_str().to_owned()),
    }
}

/// The catalogue entry after its path was changed and inspected again.
/// Everything about the target is taken from the new inspection; the
/// identifier, the name, the category and the arguments stay.
pub fn refresh_record(record: &AppData, info: &FileInfo, kind: TargetKind) -> (refreshed: AppData)
    ensures
        refreshed.id == record.id,
        refreshed.name == record.name,
        refreshed.category == record.category,
        refreshed.launch_args == record.launch_args,
        refreshed.icon@ == record_icon_of(info.icon),
        refreshed.path == info.path,
        refreshed.target_path == info.target_path,
        refreshed.is_shortcut == info.is_shortcut,
        opt_view(refreshed.target_type) == Some(kind_name(kind)),
{
    AppData {
        id: record.id,
        name: record.name.clone(),
        category: record.category.clone(),
        icon: record_icon(&info.icon),
        path: info.path.clone(),
        target_path: copy_text(&info.target_path),
        is_shortcut: info.is_shortcut,
        launch_args: copy_text(&record.launch_args),
        target_type: Some(kind.as_str().to_owned()),
    }
}

} // verus!
