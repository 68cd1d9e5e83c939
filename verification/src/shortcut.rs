//! Shortcut containers: shell links and internet shortcuts, and the targets
//! that they lead to.

use vstd::prelude::*;
use crate::paths::{lower_extension_of, lowercase_extension};
use crate::platform::Platform;
use crate::text::{
    begins_with, chars_of, first_newline, is_literal, lines_of, opt_view, slice_of, split_lines,
    starts_with,
    string_of, views,
};

verus! {

/// The kinds of shortcut container, told apart by extension.
#[derive(Clone, Copy, Debug, PartialEq, Eq, Structural)]
pub enum ShortcutKind {
    /// A Windows shell link, `.lnk`.
    ShellLink,
    /// An internet shortcut, `.url`.
    InternetShortcut,
    /// A desktop entry, `.desktop`.
    DesktopEntry,
    /// Any other file.
    NotAShortcut,
}

/// What was read of a shortcut file.
#[derive(Debug, PartialEq)]
pub enum ShortcutContents {
    /// The file could not be read, or holds nothing of use.
    Unavailable,
    /// The local base path in the link-info block of a shell link.
    LocalBasePath(String),
    /// The text of an internet shortcut.
    Text(String),
}

/// The key that begins the target line of an internet shortcut.
pub const URL_KEY: &'static str = "URL=";

/// The kind of container that a lowercase extension denotes.
pub open spec fn kind_of(ext: Seq<char>) -> ShortcutKind {
    if ext == "lnk"@ {
        ShortcutKind::ShellLink
    } else if ext == "url"@ {
        ShortcutKind::InternetShortcut
    } else if ext == "desktop"@ {
        ShortcutKind::DesktopEntry
    } else {
        ShortcutKind::NotAShortcut
    }
}

/// The kind of container that a path denotes, by its extension without
/// regard to case.
pub open spec fn kind_of_path(path: Seq<char>) -> ShortcutKind {
    kind_of(lower_extension_of(path))
}

/// Whether the resolver reads this kind of container.
pub open spec fn resolvable(kind: ShortcutKind) -> bool {
    kind == ShortcutKind::ShellLink || kind == ShortcutKind::InternetShortcut
}

/// The value of the first line that begins with the key `URL=`: what follows
/// the key on that line.
pub open spec fn url_entry_in(lines: Seq<Seq<char>>) -> Option<Seq<char>>
    decreases lines.len(),
{
    if lines.len() == 0 {
        None
    } else if starts_with(lines[0], URL_KEY@) {
        Some(lines[0].skip(URL_KEY@.len() as int))
    } else {
        url_entry_in(lines.drop_first())
    }
}

/// The target that the text of an internet shortcut names.
pub open spec fn url_entry_of(text: Seq<char>) -> Option<Seq<char>> {
    url_entry_in(lines_of(text))
}

/// The target of a container of the given kind: the local base path of a
/// shell link, read only where shell links are at home, or the `URL=` entry
/// of an internet shortcut.
pub open spec fn target_of(
    kind: ShortcutKind,
    platform: Platform,
    contents: ShortcutContents,
) -> Option<Seq<char>> {
    match kind {
        ShortcutKind::ShellLink => match contents {
            ShortcutContents::LocalBasePath(target) => if platform == Platform::Windows {
                Some(target@)
            } else {
                None
            },
            _ => None,
        },
        ShortcutKind::InternetShortcut => match contents {
            ShortcutContents::Text(text) => url_entry_of(text@),
            _ => None,
        },
        _ => None,
    }
}

/// The kind of container that a lowercase extension denotes.
pub fn kind_of_extension(ext: &str) -> (kind: ShortcutKind)
    ensures
        kind == kind_of(ext@),
{
    let e = chars_of(ext);
    if is_literal(&e, "lnk") {
        ShortcutKind::ShellLink
    } else if is_literal(&e, "url") {
        ShortcutKind::InternetShortcut
    } else if is_literal(&e, "desktop") {
        ShortcutKind::DesktopEntry
    } else {
        ShortcutKind::NotAShortcut
    }
}

/// The kind of container that a path denotes.
pub fn shortcut_kind(path: &str) -> (kind: ShortcutKind)
    ensures
        kind == kind_of_path(path@),
{
    let ext = lowercase_extension(path);
    kind_of_extension(ext.as_str())
}

/// Whether a path denotes a shortcut container: its extension is `lnk`,
/// `url` or `desktop`, in any case.
pub fn is_shortcut(path: &str) -> (r: bool)
    ensures
        r == (kind_of_path(path@) != ShortcutKind::NotAShortcut),
        r == ({
            let ext = lower_extension_of(path@);
            ext == "lnk"@ || ext == "url"@ || ext == "desktop"@
        }),
{
    match shortcut_kind(path) {
        ShortcutKind::NotAShortcut => false,
        _ => true,
    }
}

/// The target that the text of an internet shortcut names: what follows
/// `URL=` on the first line that begins with it.
pub fn parse_url_shortcut(content: &str) -> (target: Option<String>)
    ensures
        opt_view(target) == url_entry_of(content@),
{
    let text = chars_of(content);
    let lines = split_lines(&text);
    let key = chars_of(URL_KEY);
    let mut i: usize = 0;
    assert(views(lines@).skip(0) == views(lines@));
    while i < lines.len()
        invariant
            i <= lines.len(),
            key@ == URL_KEY@,
            views(lines@) == lines_of(content@),
            url_entry_in(views(lines@).skip(i as int)) == url_entry_in(views(lines@)),
        decreases lines.len() - i,
    {
        let ghost rest = views(lines@).skip(i as int);
        assert(rest[0] == lines@[i as int]@);
        if begins_with(&lines[i], URL_KEY) {
            let value = slice_of(&lines[i], key.len(), lines[i].len());
            assert(value@ == lines@[i as int]@.skip(URL_KEY@.len() as int));
            assert(rest.len() > 0 && starts_with(rest[0], URL_KEY@));
            assert(url_entry_in(rest) == Some(value@));
            return Some(string_of(&value));
        }
        assert(rest.drop_first() == views(lines@).skip(i + 1));
        i += 1;
    }
    None
}

/// The target stored in a container of the given kind, given what was
/// read of the file: the local base path of a shell link, on Windows only,
/// or the `URL=` entry of an internet shortcut. Any other kind has none.
pub fn target_for_kind(kind: ShortcutKind, platform: Platform, contents: &ShortcutContents) -> (target:
    Option<String>)
    ensures
        opt_view(target) == target_of(kind, platform, *contents),
{
    match kind {
        ShortcutKind::ShellLink => match contents {
            ShortcutContents::LocalBasePath(target) => match platform {
                Platform::Windows => Some(target.clone()),
                _ => None,
            },
            _ => None,
        },
        ShortcutKind::InternetShortcut => match contents {
            ShortcutContents::Text(text) => parse_url_shortcut(text.as_str()),
            _ => None,
        },
        _ => None,
    }
}

/// Resolves a shortcut container to the target stored in it. The caller
/// hands over what it read of the file: the local base path of a shell link,
/// or the text of an internet shortcut. There is no target when the file
/// could not be read, when it holds none, or when a shell link is met on a
/// platform other than Windows.
pub fn resolve_shortcut_target(
    shortcut_path: &str,
    platform: Platform,
    contents: &ShortcutContents,
) -> (target: Option<String>)
    requires
        resolvable(kind_of_path(shortcut_path@)),
    ensures
        opt_view(target) == target_of(kind_of_path(shortcut_path@), platform, *contents),
{
    target_for_kind(shortcut_kind(shortcut_path), platform, contents)
}

/// Resolves a path that may or may not be a shortcut container: the stored
/// target of a shell link or an internet shortcut, and nothing for any other
/// path.
pub fn resolve_if_shortcut(
    path: &str,
    platform: Platform,
    contents: &ShortcutContents,
) -> (target: Option<String>)
    ensures
        opt_view(target) == target_of(kind_of_path(path@), platform, *contents),
{
    match shortcut_kind(path) {
        ShortcutKind::ShellLink | ShortcutKind::InternetShortcut => resolve_shortcut_target(
            path,
            platform,
            contents,
        ),
        _ => None,
    }
}

/// The entry that a text names is the value of its first `URL=` line: lines
/// before it that do not begin with the key are passed over, and lines after
/// it do not count.
pub proof fn lemma_url_entry_found(
    before: Seq<Seq<char>>,
    value: Seq<char>,
    after: Seq<Seq<char>>,
)
    requires
        forall|i: int| 0 <= i < before.len() ==> !starts_with(#[trigger] before[i], URL_KEY@),
    ensures
        url_entry_in(before + seq![URL_KEY@ + value] + after) == Some(value),
    decreases before.len(),
{
    let lines = before + seq![URL_KEY@ + value] + after;
    let line = URL_KEY@ + value;
    if before.len() == 0 {
        assert(lines[0] == line);
        assert(line.subrange(0, URL_KEY@.len() as int) == URL_KEY@);
        assert(line.skip(URL_KEY@.len() as int) == value);
    } else {
        assert(lines[0] == before[0]);
        assert(lines.drop_first() == before.drop_first() + seq![line] + after);
        lemma_url_entry_found(before.drop_first(), value, after);
    }
}

/// A text in which no line begins with `URL=` names no target.
pub proof fn lemma_url_entry_absent(lines: Seq<Seq<char>>)
    requires
        forall|i: int| 0 <= i < lines.len() ==> !starts_with(#[trigger] lines[i], URL_KEY@),
    ensures
        url_entry_in(lines) is None,
    decreases lines.len(),
{
    if lines.len() > 0 {
        lemma_url_entry_absent(lines.drop_first());
    }
}

/// A text without line feeds has no line feed from any position on.
proof fn lemma_no_newline(s: Seq<char>, from: int)
    requires
        0 <= from <= s.len(),
        forall|i: int| 0 <= i < s.len() ==> s[i] != '\n',
    ensures
        first_newline(s, from) == s.len(),
    decreases s.len() - from,
{
    if from < s.len() {
        lemma_no_newline(s, from + 1);
    }
}

/// A shortcut file that holds nothing but the key and an address names
/// that address: what was written as `URL=` and a value on one line is read
/// back as the value.
pub proof fn lemma_url_file_round_trip(value: Seq<char>)
    requires
        forall|i: int| 0 <= i < value.len() ==> value[i] != '\n',
    ensures
        url_entry_of(URL_KEY@ + value) == Some(value),
{
    reveal_strlit("URL=");
    let text = URL_KEY@ + value;
    assert(URL_KEY@ =~= seq!['U', 'R', 'L', '=']);
    assert forall|i: int| 0 <= i < text.len() implies text[i] != '\n' by {
        if i >= 4 {
            assert(text[i] == value[i - 4]);
        }
    }
    lemma_no_newline(text, 0);
    assert(text.subrange(0, text.len() as int) =~= text);
    assert(lines_of(text) =~= seq![text]);
    assert(text.subrange(0, URL_KEY@.len() as int) =~= URL_KEY@);
    assert(text.skip(URL_KEY@.len() as int) =~= value);
    assert(seq![text].drop_first() =~= Seq::<Seq<char>>::empty());
}

} // verus!
