//! Icons: the category tag of a file type, and the order in which the
//! sources of an icon are tried.

use vstd::prelude::*;
use crate::classify::{is_web_address, is_web_url};
use crate::paths::{lower_extension_of, lowercase_extension};
use crate::text::{chars_of, is_literal, opt_view};

verus! {

/// The category tag of a lowercase extension, if the extension is a known
/// one.
pub open spec fn tag_for(ext: Seq<char>) -> Option<Seq<char>> {
    if ext == "exe"@ {
        Some("exe"@)
    } else if ext == "msi"@ {
        Some("installer"@)
    } else if ext == "lnk"@ {
        Some("shortcut"@)
    } else if ext == "txt"@ {
        Some("text"@)
    } else if ext == "pdf"@ {
        Some("pdf"@)
    } else if ext == "doc"@ || ext == "docx"@ {
        Some("word"@)
    } else if ext == "xls"@ || ext == "xlsx"@ {
        Some("excel"@)
    } else if ext == "ppt"@ || ext == "pptx"@ {
        Some("powerpoint"@)
    } else if ext == "zip"@ || ext == "rar"@ || ext == "7z"@ {
        Some("archive"@)
    } else if ext == "jpg"@ || ext == "jpeg"@ || ext == "png"@ || ext == "gif"@ || ext == "bmp"@ {
        Some("image"@)
    } else if ext == "mp3"@ || ext == "wav"@ || ext == "flac"@ {
        Some("audio"@)
    } else if ext == "mp4"@ || ext == "avi"@ || ext == "mkv"@ {
        Some("video"@)
    } else if ext == "html"@ || ext == "htm"@ || ext == "url"@ {
        Some("web"@)
    } else if ext == "js"@ || ext == "ts"@ {
        Some("javascript"@)
    } else if ext == "py"@ {
        Some("python"@)
    } else if ext == "java"@ {
        Some("java"@)
    } else if ext == "cpp"@ || ext == "c"@ || ext == "h"@ {
        Some("code"@)
    } else if ext == "json"@ {
        Some("json"@)
    } else if ext == "xml"@ {
        Some("xml"@)
    } else if ext == "css"@ {
        Some("css"@)
    } else {
        None
    }
}

/// The category tag of a lowercase extension.
pub fn semantic_tag(ext: &str) -> (tag: Option<String>)
    ensures
        opt_view(tag) == tag_for(ext@),
{
    let e = chars_of(ext);
    if is_literal(&e, "exe") {
        Some("exe".to_owned())
    } else if is_literal(&e, "msi") {
        Some("installer".to_owned())
    } else if is_literal(&e, "lnk") {
        Some("shortcut".to_owned())
    } else if is_literal(&e, "txt") {
        Some("text".to_owned())
    } else if is_literal(&e, "pdf") {
        Some("pdf".to_owned())
    } else if is_literal(&e, "doc") || is_literal(&e, "docx") {
        Some("word".to_owned())
    } else if is_literal(&e, "xls") || is_literal(&e, "xlsx") {
        Some("excel".to_owned())
    } else if is_literal(&e, "ppt") || is_literal(&e, "pptx") {
        Some("powerpoint".to_owned())
    } else if is_literal(&e, "zip") || is_literal(&e, "rar") || is_literal(&e, "7z") {
        Some("archive".to_owned())
    } else if is_literal(&e, "jpg") || is_literal(&e, "jpeg") || is_literal(&e, "png")
        || is_literal(&e, "gif") || is_literal(&e, "bmp") {
        Some("image".to_owned())
    } else if is_literal(&e, "mp3") || is_literal(&e, "wav") || is_literal(&e, "flac") {
        Some("audio".to_owned())
    } else if is_literal(&e, "mp4") || is_literal(&e, "avi") || is_literal(&e, "mkv") {
        Some("video".to_owned())
    } else if is_literal(&e, "html") || is_literal(&e, "htm") || is_literal(&e, "url") {
        Some("web".to_owned())
    } else if is_literal(&e, "js") || is_literal(&e, "ts") {
        Some("javascript".to_owned())
    } else if is_literal(&e, "py") {
        Some("python".to_owned())
    } else if is_literal(&e, "java") {
        Some("java".to_owned())
    } else if is_literal(&e, "cpp") || is_literal(&e, "c") || is_literal(&e, "h") {
        Some("code".to_owned())
    } else if is_literal(&e, "json") {
        Some("json".to_owned())
    } else if is_literal(&e, "xml") {
        Some("xml".to_owned())
    } else if is_literal(&e, "css") {
        Some("css".to_owned())
    } else {
        None
    }
}

/// The category tag that stands for the icon of a path: none for a web
/// address, whose icon only its site can give, and the tag of the extension
/// for anything else.
pub open spec fn file_icon_of(path: Seq<char>) -> Option<Seq<char>> {
    if is_web_address(path) {
        None
    } else {
        tag_for(lower_extension_of(path))
    }
}

/// The category tag that stands for the icon of a file, chosen by the
/// extension of its path without regard to case. A path without an
/// extension, or with one that is not known, has none, and neither has a
/// web address, whatever its last component looks like.
pub fn extract_file_icon(file_path: &str) -> (tag: Option<String>)
    ensures
        opt_view(tag) == file_icon_of(file_path@),
        is_web_address(file_path@) ==> tag is None,
{
    if is_web_url(file_path) {
        return None;
    }
    let ext = lowercase_extension(file_path);
    semantic_tag(ext.as_str())
}

/// The sources of an icon, in the order in which they are tried.
#[derive(Clone, Copy, Debug, PartialEq, Eq, Structural)]
pub enum IconTier {
    /// The icon that the site of an address offers.
    Favicon,
    /// The icon that the system extracts from an executable.
    NativeBitmap,
    /// The largest icon file among the resources unpacked from an executable.
    ArchiveResources,
    /// The icon that the system shell associates with the file.
    ShellQuery,
    /// The category tag of the extension.
    SemanticTag,
}

/// An icon: an image as a data URI, a category tag in its place, or nothing.
#[derive(Debug, PartialEq)]
pub enum IconResult {
    DataUri(String),
    SemanticTag(String),
    Empty,
}

/// The mathematical content of an [`IconResult`].
pub enum IconView {
    DataUri(Seq<char>),
    SemanticTag(Seq<char>),
    Empty,
}

impl View for IconResult {
    type V = IconView;

    open spec fn view(&self) -> IconView {
        match self {
            IconResult::DataUri(uri) => IconView::DataUri(uri@),
            IconResult::SemanticTag(tag) => IconView::SemanticTag(tag@),
            IconResult::Empty => IconView::Empty,
        }
    }
}

/// What to do next for an icon.
#[derive(Debug, PartialEq)]
pub enum IconStep {
    /// Ask this source.
    Attempt(IconTier),
    /// The icon is settled.
    Finished(IconResult),
}

/// The mathematical content of an [`IconStep`].
pub enum StepView {
    Attempt(IconTier),
    Finished(IconView),
}

impl View for IconStep {
    type V = StepView;

    open spec fn view(&self) -> StepView {
        match self {
            IconStep::Attempt(tier) => StepView::Attempt(*tier),
            IconStep::Finished(icon) => StepView::Finished(icon@),
        }
    }
}

/// What each source gave for a target: an image as a data URI, or nothing.
#[derive(Debug, PartialEq)]
pub struct TierOutcomes {
    pub favicon: Option<String>,
    pub native_bitmap: Option<String>,
    pub archive_resources: Option<String>,
    pub shell_query: Option<String>,
}

/// The mathematical content of [`TierOutcomes`].
pub struct OutcomesView {
    pub favicon: Option<Seq<char>>,
    pub native_bitmap: Option<Seq<char>>,
    pub archive_resources: Option<Seq<char>>,
    pub shell_query: Option<Seq<char>>,
}

impl View for TierOutcomes {
    type V = OutcomesView;

    open spec fn view(&self) -> OutcomesView {
        OutcomesView {
            favicon: opt_view(self.favicon),
            native_bitmap: opt_view(self.native_bitmap),
            archive_resources: opt_view(self.archive_resources),
            shell_query: opt_view(self.shell_query),
        }
    }
}

impl OutcomesView {
    /// What the given source gave. The tag is no outside source.
    pub open spec fn of(self, tier: IconTier) -> Option<Seq<char>> {
        match tier {
            IconTier::Favicon => self.favicon,
            IconTier::NativeBitmap => self.native_bitmap,
            IconTier::ArchiveResources => self.archive_resources,
            IconTier::ShellQuery => self.shell_query,
            IconTier::SemanticTag => None,
        }
    }
}

/// The place of a source in the order of preference.
pub open spec fn rank(tier: IconTier) -> int {
    match tier {
        IconTier::Favicon => 0,
        IconTier::NativeBitmap => 1,
        IconTier::ArchiveResources => 2,
        IconTier::ShellQuery => 3,
        IconTier::SemanticTag => 4,
    }
}

/// Whether a lowercase extension is that of an executable. What counts as
/// an executable is a choice of this crate: a file with the extension
/// `exe`. Such a file carries icons of its own, so the native icon, the
/// unpacked resources and the shell are asked for it, in this order. Every
/// other file goes by the tag of its extension at once, and none of the
/// three is asked.
pub open spec fn is_executable_extension(ext: Seq<char>) -> bool {
    ext == "exe"@
}

/// Whether a path names an executable: its extension is `exe`, in any
/// case.
pub open spec fn is_executable(target: Seq<char>) -> bool {
    is_executable_extension(lower_extension_of(target))
}

/// The last resort for a file with the given lowercase extension: the tag
/// of the extension, or nothing.
pub open spec fn fallback_for(ext: Seq<char>) -> IconView {
    match tag_for(ext) {
        Some(tag) => IconView::SemanticTag(tag),
        None => IconView::Empty,
    }
}

/// The last resort for a file: the tag of its extension, or nothing.
pub open spec fn fallback_of(target: Seq<char>) -> IconView {
    fallback_for(lower_extension_of(target))
}

/// Where the search for an icon begins, for a target with the given
/// lowercase extension: at the site of an address, at the native icon of an
/// executable, and at the tag of any other file.
pub open spec fn first_step_for(ext: Seq<char>, is_url: bool) -> StepView {
    if is_url {
        StepView::Attempt(IconTier::Favicon)
    } else if is_executable_extension(ext) {
        StepView::Attempt(IconTier::NativeBitmap)
    } else {
        StepView::Finished(fallback_for(ext))
    }
}

/// Where the search for the icon of a target begins.
pub open spec fn first_step_of(target: Seq<char>, is_url: bool) -> StepView {
    first_step_for(lower_extension_of(target), is_url)
}

/// Where the search goes after a source has answered, for a target with
/// the given lowercase extension. An image ends it. A site without an icon
/// ends it with nothing: an address has no extension to go by. A file falls
/// through to the next source, and at last to its tag.
pub open spec fn next_step_for(ext: Seq<char>, tier: IconTier, outcome: Option<Seq<char>>) -> StepView {
    match outcome {
        Some(uri) => StepView::Finished(IconView::DataUri(uri)),
        None => match tier {
            IconTier::Favicon => StepView::Finished(IconView::Empty),
            IconTier::NativeBitmap => StepView::Attempt(IconTier::ArchiveResources),
            IconTier::ArchiveResources => StepView::Attempt(IconTier::ShellQuery),
            IconTier::ShellQuery => StepView::Finished(fallback_for(ext)),
            IconTier::SemanticTag => StepView::Finished(fallback_for(ext)),
        },
    }
}

/// Where the search for the icon of a target goes after a source has
/// answered.
pub open spec fn next_step_of(target: Seq<char>, tier: IconTier, outcome: Option<Seq<char>>) -> StepView {
    next_step_for(lower_extension_of(target), tier, outcome)
}

/// The icon of a target with the given lowercase extension, given what
/// each source has to offer: the first image in the order of the sources
/// that apply to the target, and the fallback when there is none.
pub open spec fn acquired_icon_for(ext: Seq<char>, is_url: bool, outcomes: OutcomesView) -> IconView {
    if is_url {
        match outcomes.favicon {
            Some(uri) => IconView::DataUri(uri),
            None => IconView::Empty,
        }
    } else if !is_executable_extension(ext) {
        fallback_for(ext)
    } else if outcomes.native_bitmap is Some {
        IconView::DataUri(outcomes.native_bitmap->0)
    } else if outcomes.archive_resources is Some {
        IconView::DataUri(outcomes.archive_resources->0)
    } else if outcomes.shell_query is Some {
        IconView::DataUri(outcomes.shell_query->0)
    } else {
        fallback_for(ext)
    }
}

/// The icon of a target, given what each source has to offer.
pub open spec fn acquired_icon_of(target: Seq<char>, is_url: bool, outcomes: OutcomesView) -> IconView {
    acquired_icon_for(lower_extension_of(target), is_url, outcomes)
}

/// The icon that the search ends with when it is carried on from `step`
/// for at most `fuel` sources.
pub open spec fn search_from(target: Seq<char>, step: StepView, outcomes: OutcomesView, fuel: nat) -> IconView
    decreases fuel,
{
    match step {
        StepView::Finished(icon) => icon,
        StepView::Attempt(tier) => if fuel == 0 {
            IconView::Empty
        } else {
            search_from(
                target,
                next_step_of(target, tier, outcomes.of(tier)),
                outcomes,
                (fuel - 1) as nat,
            )
        },
    }
}

/// The last resort for a file with the given lowercase extension: the tag
/// of the extension, or nothing.
pub fn fallback_for_extension(ext: &str) -> (icon: IconResult)
    ensures
        icon@ == fallback_for(ext@),
{
    match semantic_tag(ext) {
        Some(tag) => IconResult::SemanticTag(tag),
        None => IconResult::Empty,
    }
}

/// The last resort for a file: the tag of its extension, or nothing.
pub fn fallback_icon(target: &str) -> (icon: IconResult)
    ensures
        icon@ == fallback_of(target@),
{
    let ext = lowercase_extension(target);
    fallback_for_extension(ext.as_str())
}

/// Whether a lowercase extension is that of an executable.
pub fn is_executable_ext(ext: &str) -> (r: bool)
    ensures
        r == is_executable_extension(ext@),
{
    let e = chars_of(ext);
    is_literal(&e, "exe")
}

/// Whether a path names an executable.
pub fn has_own_icons(target: &str) -> (r: bool)
    ensures
        r == is_executable(target@),
{
    let ext = lowercase_extension(target);
    is_executable_ext(ext.as_str())
}

/// Begins the search for the icon of a target that has the given lowercase
/// extension.
pub fn start_with_extension(ext: &str, is_url: bool) -> (step: IconStep)
    ensures
        step@ == first_step_for(ext@, is_url),
{
    if is_url {
        IconStep::Attempt(IconTier::Favicon)
    } else if is_executable_ext(ext) {
        IconStep::Attempt(IconTier::NativeBitmap)
    } else {
        IconStep::Finished(fallback_for_extension(ext))
    }
}

/// Begins the search for the icon of a target.
pub fn start_acquisition(target: &str, is_url: bool) -> (step: IconStep)
    ensures
        step@ == first_step_of(target@, is_url),
{
    let ext = lowercase_extension(target);
    start_with_extension(ext.as_str(), is_url)
}

/// Carries the search on after the source `tier` has answered with an image
/// or with nothing, for a target that has the given lowercase extension.
pub fn continue_with_extension(ext: &str, tier: IconTier, outcome: Option<String>) -> (step:
    IconStep)
    ensures
        step@ == next_step_for(ext@, tier, opt_view(outcome)),
{
    match outcome {
        Some(uri) => IconStep::Finished(IconResult::DataUri(uri)),
        None => match tier {
            IconTier::Favicon => IconStep::Finished(IconResult::Empty),
            IconTier::NativeBitmap => IconStep::Attempt(IconTier::ArchiveResources),
            IconTier::ArchiveResources => IconStep::Attempt(IconTier::ShellQuery),
            IconTier::ShellQuery => IconStep::Finished(fallback_for_extension(ext)),
            IconTier::SemanticTag => IconStep::Finished(fallback_for_extension(ext)),
        },
    }
}

/// Carries the search on after the source `tier` has answered with an image
/// or with nothing.
pub fn continue_acquisition(target: &str, tier: IconTier, outcome: Option<String>) -> (step:
    IconStep)
    ensures
        step@ == next_step_of(target@, tier, opt_view(outcome)),
{
    let ext = lowercase_extension(target);
    continue_with_extension(ext.as_str(), tier, outcome)
}

/// The icon of a target that has the given lowercase extension, given what
/// each source has to offer.
pub fn acquire_with_extension(ext: &str, is_url: bool, outcomes: &TierOutcomes) -> (icon:
    IconResult)
    ensures
        icon@ == acquired_icon_for(ext@, is_url, outcomes@),
{
    if is_url {
        return match &outcomes.favicon {
            Some(uri) => IconResult::DataUri(uri.clone()),
            None => IconResult::Empty,
        };
    }
    if !is_executable_ext(ext) {
        return fallback_for_extension(ext);
    }
    match &outcomes.native_bitmap {
        Some(uri) => {
            return IconResult::DataUri(uri.clone());
        },
        None => {},
    }
    match &outcomes.archive_resources {
        Some(uri) => {
            return IconResult::DataUri(uri.clone());
        },
        None => {},
    }
    match &outcomes.shell_query {
        Some(uri) => IconResult::DataUri(uri.clone()),
        None => fallback_for_extension(ext),
    }
}

/// The icon of a target, given what each source has to offer. Never fails:
/// where no source has an image, the tag of the extension stands in, and
/// where there is no tag either, the icon is empty.
pub fn acquire_icon(target: &str, is_url: bool, outcomes: &TierOutcomes) -> (icon: IconResult)
    ensures
        icon@ == acquired_icon_of(target@, is_url, outcomes@),
{
    let ext = lowercase_extension(target);
    acquire_with_extension(ext.as_str(), is_url, outcomes)
}

/// Carried from its first step through every source, the search ends with
/// the icon that `acquired_icon_of` names, and it never asks more than
/// three sources.
pub proof fn lemma_search_finds_acquired_icon(target: Seq<char>, is_url: bool, outcomes: OutcomesView)
    ensures
        search_from(target, first_step_of(target, is_url), outcomes, 3) == acquired_icon_of(
            target,
            is_url,
            outcomes,
        ),
{
    reveal_with_fuel(search_from, 4);
}

/// The search only ever moves down the order of the sources.
pub proof fn lemma_search_moves_down(target: Seq<char>, tier: IconTier, outcome: Option<Seq<char>>)
    ensures
        next_step_of(target, tier, outcome) matches StepView::Attempt(next) ==> rank(tier) < rank(
            next,
        ),
{
}

/// A tag stands in only where no source that applies to the target had an
/// image: the target is no address, and it is either no executable or one
/// for which the native icon, the unpacked resources and the shell all
/// failed.
pub proof fn lemma_tag_is_last_resort(target: Seq<char>, is_url: bool, outcomes: OutcomesView)
    requires
        acquired_icon_of(target, is_url, outcomes) is SemanticTag,
    ensures
        !is_url,
        is_executable(target) ==> outcomes.native_bitmap is None && outcomes.archive_resources
            is None && outcomes.shell_query is None,
        acquired_icon_of(target, is_url, outcomes) == fallback_of(target),
{
}

/// An earlier source wins over every later one: when a source that applies
/// has an image and all before it have none, that image is the icon.
pub proof fn lemma_first_image_wins(target: Seq<char>, outcomes: OutcomesView, tier: IconTier)
    requires
        is_executable(target),
        tier != IconTier::Favicon,
        outcomes.of(tier) is Some,
        forall|earlier: IconTier|
            earlier != IconTier::Favicon && rank(earlier) < rank(tier) ==> outcomes.of(earlier)
                is None,
    ensures
        acquired_icon_of(target, false, outcomes) == IconView::DataUri(outcomes.of(tier)->0),
{
    assert(rank(IconTier::NativeBitmap) == 1);
    assert(rank(IconTier::ArchiveResources) == 2);
    assert(rank(IconTier::ShellQuery) == 3);
    match tier {
        IconTier::NativeBitmap => {},
        IconTier::ArchiveResources => {
            assert(outcomes.of(IconTier::NativeBitmap) is None);
        },
        IconTier::ShellQuery => {
            assert(outcomes.of(IconTier::NativeBitmap) is None);
            assert(outcomes.of(IconTier::ArchiveResources) is None);
        },
        _ => {},
    }
}

/// An address never gets a tag: its icon is the one of its site, or empty.
pub proof fn lemma_address_has_no_tag(target: Seq<char>, outcomes: OutcomesView)
    ensures
        !(acquired_icon_of(target, true, outcomes) is SemanticTag),
        outcomes.favicon is None ==> acquired_icon_of(target, true, outcomes) == IconView::Empty,
{
}

/// The icon depends on the target and on what the sources offer, and on
/// nothing else: asked twice under the same conditions, the search ends the
/// same way. An executable that no source can reach always ends at the
/// fallback of its extension.
pub proof fn lemma_acquisition_is_repeatable(
    target: Seq<char>,
    is_url: bool,
    first: OutcomesView,
    second: OutcomesView,
)
    requires
        first == second,
    ensures
        acquired_icon_of(target, is_url, first) == acquired_icon_of(target, is_url, second),
        !is_url && first.native_bitmap is None && first.archive_resources is None
            && first.shell_query is None ==> acquired_icon_of(target, is_url, first)
            == fallback_of(target),
{
}

} // verus!
