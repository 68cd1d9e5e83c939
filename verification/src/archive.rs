//! Icons unpacked from an executable: the command that unpacks them, and
//! the choice among what comes out.

use vstd::prelude::*;
use crate::encoding::{ico_data_uri, ico_uri_of};
use crate::launcher::{Command, CommandView};
use crate::paths::{extension_chars, extension_of};
use crate::text::{chars_of, decimal_of, is_literal, push_char, push_decimal};

verus! {

/// A file that the unpacking left behind.
#[derive(Clone, Debug, PartialEq)]
pub struct ExtractedFile {
    pub path: String,
    /// Its size in bytes.
    pub size: u64,
}

/// How the run of the unpacking tool ended.
#[derive(Clone, Copy, Debug, PartialEq, Eq, Structural)]
pub enum ToolRun {
    /// The tool could not be started.
    NotStarted,
    /// The tool ran and reported success or failure.
    Exited { success: bool },
}

/// Why the unpacked resources gave no icon.
#[derive(Clone, Copy, Debug, PartialEq, Eq, Structural)]
pub enum ArchiveError {
    /// The unpacking tool could not be started.
    ToolNotStarted,
    /// The unpacking tool reported failure.
    ToolFailed,
    /// Nothing that was unpacked is an icon file.
    NoIconFile,
    /// The chosen icon file could not be read.
    UnreadableIcon,
    /// The chosen icon file holds no image that could be converted.
    UndecodableIcon,
}

/// What begins the name of the directory that a call unpacks into.
pub const TEMP_DIR_PREFIX: &'static str = "temp_icons_";

/// The name of the directory that a call unpacks into, made of the clock
/// reading in milliseconds so that calls at different moments do not share
/// one.
pub open spec fn temp_dir_name_of(millis: u128) -> Seq<char> {
    TEMP_DIR_PREFIX@ + decimal_of(millis as nat)
}

/// The command that unpacks the resources of `exe_path` into `temp_dir`.
pub open spec fn extraction_command_of(exe_path: Seq<char>, temp_dir: Seq<char>) -> CommandView {
    CommandView {
        program: "7z"@,
        arguments: seq!["e"@, exe_path, "-o"@ + temp_dir],
        working_dir: None,
        creation_flags: 0,
        detached: false,
        discard_output: false,
    }
}

/// Whether a path names an icon file: its extension is `ico`, in lowercase.
pub open spec fn is_icon_file(path: Seq<char>) -> bool {
    extension_of(path) == Some("ico"@)
}

/// The position of the icon file to use among the first `n` files: the
/// largest one, and among equally large ones the last.
pub open spec fn best_icon_among(files: Seq<ExtractedFile>, n: int) -> Option<int>
    decreases n,
{
    if n <= 0 {
        None
    } else {
        let before = best_icon_among(files, n - 1);
        let k = n - 1;
        if is_icon_file(files[k].path@) && (before is None || files[before->0].size
            <= files[k].size) {
            Some(k)
        } else {
            before
        }
    }
}

/// The position of the icon file to use: a larger file is taken to hold the
/// better image.
pub open spec fn best_icon_of(files: Seq<ExtractedFile>) -> Option<int> {
    best_icon_among(files, files.len() as int)
}

/// The icon file to read after the unpacking tool has run: the best one
/// among what was unpacked, where the tool ran and reported success.
pub open spec fn chosen_icon_of(run: ToolRun, files: Seq<ExtractedFile>) -> Result<
    int,
    ArchiveError,
> {
    match run {
        ToolRun::NotStarted => Err(ArchiveError::ToolNotStarted),
        ToolRun::Exited { success } => if !success {
            Err(ArchiveError::ToolFailed)
        } else {
            match best_icon_of(files) {
                Some(i) => Ok(i),
                None => Err(ArchiveError::NoIconFile),
            }
        },
    }
}

/// The icon that the chosen file gives: the PNG data URI of its image,
/// where the file could be read and holds an image.
pub open spec fn archive_icon_of(bytes: Option<Seq<u8>>) -> Result<Seq<char>, ArchiveError> {
    match bytes {
        None => Err(ArchiveError::UnreadableIcon),
        Some(b) => match ico_uri_of(b) {
            Some(uri) => Ok(uri),
            None => Err(ArchiveError::UndecodableIcon),
        },
    }
}

/// The view of optional bytes.
pub open spec fn bytes_view(bytes: Option<Vec<u8>>) -> Option<Seq<u8>> {
    match bytes {
        Some(b) => Some(b@),
        None => None,
    }
}

/// The reason in words.
pub open spec fn archive_message_of(error: ArchiveError) -> Seq<char> {
    match error {
        ArchiveError::ToolNotStarted => "执行 7z 失败"@,
        ArchiveError::ToolFailed => "7z 提取失败"@,
        ArchiveError::NoIconFile => "未找到 ico 文件"@,
        ArchiveError::UnreadableIcon => "加载 ico 文件失败"@,
        ArchiveError::UndecodableIcon => "转换 ico 为 PNG 失败"@,
    }
}

/// `best_icon_among` picks an icon file that no icon file before `n`
/// exceeds in size and that no later one equals, and picks none only when
/// there is no icon file.
pub proof fn lemma_best_icon(files: Seq<ExtractedFile>, n: int)
    requires
        0 <= n <= files.len(),
    ensures
        match best_icon_among(files, n) {
            Some(i) => {
                &&& 0 <= i < n
                &&& is_icon_file(files[i].path@)
                &&& forall|j: int|
                    0 <= j < n && is_icon_file(#[trigger] files[j].path@) ==> files[j].size
                        <= files[i].size
                &&& forall|j: int|
                    i < j < n && is_icon_file(#[trigger] files[j].path@) ==> files[j].size
                        < files[i].size
            },
            None => forall|j: int| 0 <= j < n ==> !is_icon_file(#[trigger] files[j].path@),
        },
    decreases n,
{
    if n > 0 {
        lemma_best_icon(files, n - 1);
    }
}

/// The name of the directory that a call unpacks into.
pub fn temp_dir_name(millis: u128) -> (name: String)
    ensures
        name@ == temp_dir_name_of(millis),
{
    let mut name = TEMP_DIR_PREFIX.to_owned();
    push_decimal(&mut name, millis);
    name
}

/// The command that unpacks the resources of an executable into a
/// directory.
pub fn extraction_command(exe_path: &str, temp_dir: &str) -> (c: Command)
    ensures
        c@ == extraction_command_of(exe_path@, temp_dir@),
{
    let mut output = "-o".to_owned();
    let dir = chars_of(temp_dir);
    let mut i: usize = 0;
    while i < dir.len()
        invariant
            i <= dir.len(),
            output@ == "-o"@ + dir@.take(i as int),
        decreases dir.len() - i,
    {
        push_char(&mut output, dir[i]);
        assert(dir@.take(i + 1) == dir@.take(i as int).push(dir@[i as int]));
        i += 1;
    }
    assert(dir@.take(dir@.len() as int) == dir@);
    let mut arguments: Vec<String> = Vec::new();
    arguments.push("e".to_owned());
    arguments.push(exe_path.to_owned());
    arguments.push(output);
    let c = Command {
        program: "7z".to_owned(),
        arguments,
        working_dir: None,
        creation_flags: 0,
        detached: false,
        discard_output: false,
    };
    assert(c@.arguments =~= seq!["e"@, exe_path@, "-o"@ + temp_dir@]);
    c
}

/// Whether a path names an icon file.
pub fn is_icon_path(path: &str) -> (r: bool)
    ensures
        r == is_icon_file(path@),
{
    let p = chars_of(path);
    match extension_chars(&p) {
        Some(e) => is_literal(&e, "ico"),
        None => false,
    }
}

/// Chooses the icon file to use among the unpacked files: the largest by
/// size, and among equally large ones the one listed last. There is none
/// when no file has the extension `ico`.
pub fn largest_icon(files: &Vec<ExtractedFile>) -> (best: Option<usize>)
    ensures
        match best {
            Some(i) => {
                &&& best_icon_of(files@) == Some(i as int)
                &&& i < files.len()
                &&& is_icon_file(files@[i as int].path@)
                &&& forall|j: int|
                    0 <= j < files.len() && is_icon_file(#[trigger] files@[j].path@)
                        ==> files@[j].size <= files@[i as int].size
                &&& forall|j: int|
                    i < j < files.len() && is_icon_file(#[trigger] files@[j].path@)
                        ==> files@[j].size < files@[i as int].size
            },
            None => {
                &&& best_icon_of(files@) is None
                &&& forall|j: int|
                    0 <= j < files.len() ==> !is_icon_file(#[trigger] files@[j].path@)
            },
        },
{
    proof {
        lemma_best_icon(files@, files@.len() as int);
    }
    let mut best: Option<usize> = None;
    let mut i: usize = 0;
    while i < files.len()
        invariant
            i <= files.len(),
            match best {
                Some(b) => best_icon_among(files@, i as int) == Some(b as int) && b < i,
                None => best_icon_among(files@, i as int) is None,
            },
        decreases files.len() - i,
    {
        if is_icon_path(files[i].path.as_str()) {
            let better = match best {
                Some(b) => files[b].size <= files[i].size,
                None => true,
            };
            if better {
                best = Some(i);
            }
        }
        i += 1;
    }
    best
}

/// Decides what to read after the unpacking tool has run. Nothing is read
/// when the tool could not be started or reported failure, whatever lies
/// in the directory; otherwise the largest icon file is read, and there is
/// nothing to read when no icon file was unpacked.
pub fn choose_icon(run: ToolRun, files: &Vec<ExtractedFile>) -> (r: Result<usize, ArchiveError>)
    ensures
        match r {
            Ok(i) => chosen_icon_of(run, files@) == Ok::<int, ArchiveError>(i as int) && i
                < files.len(),
            Err(e) => chosen_icon_of(run, files@) == Err::<int, ArchiveError>(e),
        },
{
    match run {
        ToolRun::NotStarted => Err(ArchiveError::ToolNotStarted),
        ToolRun::Exited { success } => {
            if !success {
                return Err(ArchiveError::ToolFailed);
            }
            match largest_icon(files) {
                Some(i) => Ok(i),
                None => Err(ArchiveError::NoIconFile),
            }
        },
    }
}

/// Makes the icon of the chosen file: the PNG data URI of the image that
/// its bytes hold. Fails when the file could not be read, given as `None`,
/// and when its bytes hold no image that can be converted.
pub fn icon_of_file(bytes: &Option<Vec<u8>>) -> (r: Result<String, ArchiveError>)
    ensures
        match r {
            Ok(uri) => archive_icon_of(bytes_view(*bytes)) == Ok::<Seq<char>, ArchiveError>(uri@),
            Err(e) => archive_icon_of(bytes_view(*bytes)) == Err::<Seq<char>, ArchiveError>(e),
        },
{
    match bytes {
        None => Err(ArchiveError::UnreadableIcon),
        Some(b) => match ico_data_uri(b) {
            Some(uri) => Ok(uri),
            None => Err(ArchiveError::UndecodableIcon),
        },
    }
}

impl ArchiveError {
    /// The reason in words.
    pub fn message(&self) -> (text: &'static str)
        ensures
            text@ == archive_message_of(*self),
    {
        match self {
            ArchiveError::ToolNotStarted => "执行 7z 失败",
            ArchiveError::ToolFailed => "7z 提取失败",
            ArchiveError::NoIconFile => "未找到 ico 文件",
            ArchiveError::UnreadableIcon => "加载 ico 文件失败",
            ArchiveError::UndecodableIcon => "转换 ico 为 PNG 失败",
        }
    }
}

} // verus!
