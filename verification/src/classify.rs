//! Classification of a target: an address, a file or a folder.

use vstd::prelude::*;
use crate::paths::{extension_of, has_extension};
use crate::text::{begins_with, chars_of, starts_with};

verus! {

/// What a target is.
#[derive(Clone, Copy, Debug, PartialEq, Eq, Structural)]
pub enum TargetKind {
    File,
    Folder,
    Url,
}

/// What the file system holds at a path.
#[derive(Clone, Copy, Debug, PartialEq, Eq, Structural)]
pub enum PathProbe {
    /// Nothing.
    Missing,
    /// Something that is not a directory.
    File,
    /// A directory.
    Directory,
}

/// Whether a text begins with the scheme of a web address.
pub open spec fn is_web_address(s: Seq<char>) -> bool {
    starts_with(s, "http://"@) || starts_with(s, "https://"@)
}

/// Whether a text begins with one of the schemes that mark an address.
pub open spec fn is_address(s: Seq<char>) -> bool {
    is_web_address(s) || starts_with(s, "ftp://"@) || starts_with(s, "file://"@)
}

/// The kind of a target, by the first rule that applies: a text with the
/// scheme of an address is an address; what exists on disk is a folder or a
/// file as the disk says; what does not exist is taken for a file when it has
/// an extension, and for a folder when it has none.
pub open spec fn classify(path: Seq<char>, probe: PathProbe) -> TargetKind {
    if is_address(path) {
        TargetKind::Url
    } else {
        match probe {
            PathProbe::Directory => TargetKind::Folder,
            PathProbe::File => TargetKind::File,
            PathProbe::Missing => if extension_of(path) is Some {
                TargetKind::File
            } else {
                TargetKind::Folder
            },
        }
    }
}

/// The name under which a kind is stored.
pub open spec fn kind_name(kind: TargetKind) -> Seq<char> {
    match kind {
        TargetKind::File => "file"@,
        TargetKind::Folder => "folder"@,
        TargetKind::Url => "url"@,
    }
}

impl TargetKind {
    /// The name under which the kind is stored: `file`, `folder` or `url`.
    pub fn as_str(&self) -> (name: &'static str)
        ensures
            name@ == kind_name(*self),
    {
        match self {
            TargetKind::File => "file",
            TargetKind::Folder => "folder",
            TargetKind::Url => "url",
        }
    }
}

/// Whether a target is a web address, one whose site may offer an icon.
pub fn is_web_url(target: &str) -> (r: bool)
    ensures
        r == is_web_address(target@),
{
    let t = chars_of(target);
    begins_with(&t, "http://") || begins_with(&t, "https://")
}

/// Whether a target is an address rather than a path. The disk need not be
/// asked about an address.
pub fn is_url(target: &str) -> (r: bool)
    ensures
        r == is_address(target@),
{
    let t = chars_of(target);
    begins_with(&t, "http://") || begins_with(&t, "https://") || begins_with(&t, "ftp://")
        || begins_with(&t, "file://")
}

/// The kind of a target, given what the disk holds at its path. The probe of
/// an address is not looked at.
pub fn detect_target_type(target_path: &str, probe: PathProbe) -> (kind: TargetKind)
    ensures
        kind == classify(target_path@, probe),
{
    if is_url(target_path) {
        return TargetKind::Url;
    }
    match probe {
        PathProbe::Directory => TargetKind::Folder,
        PathProbe::File => TargetKind::File,
        PathProbe::Missing => if has_extension(target_path) {
            TargetKind::File
        } else {
            TargetKind::Folder
        },
    }
}

/// Of a path that is no address and does not exist on disk, the kind is a
/// file exactly when the path has an extension, and a folder otherwise.
pub proof fn lemma_missing_path_kind(path: Seq<char>)
    requires
        !is_address(path),
    ensures
        classify(path, PathProbe::Missing) == TargetKind::File <==> extension_of(path) is Some,
        classify(path, PathProbe::Missing) == TargetKind::Folder <==> extension_of(path) is None,
{
}

/// An address is an address whatever the disk holds.
pub proof fn lemma_address_kind(path: Seq<char>, probe: PathProbe)
    requires
        is_address(path),
    ensures
        classify(path, probe) == TargetKind::Url,
{
}

} // verus!
