//! Commands for the Windows scripting host: the icon that the shell
//! associates with a file, elevation, auto start and the file dialogs.
//!
//! Every text that comes from outside is put into a script between single
//! quotes, with each single quote in it doubled, so that it cannot end the
//! quotation.

use vstd::prelude::*;
use crate::encoding::PNG_PREFIX;
use crate::launcher::{Command, CommandView, LaunchError, CREATE_NO_WINDOW};
use crate::paths::{parent, parent_of};
use crate::text::{
    begins_with, chars_of, joined, extend_chars, is_literal, is_unicode_space, is_whitespace, opt_view,
    slice_of, starts_with, string_of, string_views,
};

verus! {

/// A text with each single quote doubled.
pub open spec fn escape_quotes(s: Seq<char>) -> Seq<char>
    decreases s.len(),
{
    if s.len() == 0 {
        Seq::empty()
    } else if s.last() == '\'' {
        escape_quotes(s.drop_last()).push('\'').push('\'')
    } else {
        escape_quotes(s.drop_last()).push(s.last())
    }
}

/// The number of single quotes in a text.
pub open spec fn quote_count(s: Seq<char>) -> nat
    decreases s.len(),
{
    if s.len() == 0 {
        0
    } else if s.last() == '\'' {
        quote_count(s.drop_last()) + 1
    } else {
        quote_count(s.drop_last())
    }
}

/// A text without the white space that ends it.
pub open spec fn trim_end_of(s: Seq<char>) -> Seq<char>
    decreases s.len(),
{
    if s.len() > 0 && is_unicode_space(s.last()) {
        trim_end_of(s.drop_last())
    } else {
        s
    }
}

/// A text without the white space that begins it.
pub open spec fn trim_start_of(s: Seq<char>) -> Seq<char>
    decreases s.len(),
{
    if s.len() > 0 && is_unicode_space(s.first()) {
        trim_start_of(s.drop_first())
    } else {
        s
    }
}

/// A text without the white space at its ends.
pub open spec fn trimmed_of(s: Seq<char>) -> Seq<char> {
    trim_start_of(trim_end_of(s))
}

/// The arguments with which the scripting host runs a script out of sight.
pub open spec fn script_arguments(script: Seq<char>) -> Seq<Seq<char>> {
    seq!["-WindowStyle"@, "Hidden"@, "-ExecutionPolicy"@, "Bypass"@, "-Command"@, script]
}

/// The command that runs a script out of sight, whatever the execution
/// policy.
pub open spec fn script_command_of(script: Seq<char>) -> CommandView {
    CommandView {
        program: "powershell"@,
        arguments: script_arguments(script),
        working_dir: None,
        creation_flags: CREATE_NO_WINDOW,
        detached: false,
        discard_output: false,
    }
}

/// What stands before the path in the script that asks for an icon.
pub const ICON_SCRIPT_HEAD: &'static str =
    "\ntry {\n    Add-Type -AssemblyName System.Drawing\n    $icon = [System.Drawing.Icon]::ExtractAssociatedIcon('";

/// What stands after the path in the script that asks for an icon.
pub const ICON_SCRIPT_TAIL: &'static str =
    "')\n    if ($icon) {\n        $bitmap = $icon.ToBitmap()\n        $stream = New-Object System.IO.MemoryStream\n        $bitmap.Save($stream, [System.Drawing.Imaging.ImageFormat]::Png)\n        $bytes = $stream.ToArray()\n        $base64 = [System.Convert]::ToBase64String($bytes)\n        $stream.Dispose()\n        $bitmap.Dispose()\n        $icon.Dispose()\n        Write-Output \"data:image/png;base64,$base64\"\n    } else {\n        Write-Output \"\"\n    }\n} catch {\n    Write-Output \"\"\n}\n";

/// What stands before the path in the command that starts a program with
/// raised privileges.
pub const ELEVATE_HEAD: &'static str = "Start-Process '";

/// What stands after the path in that command.
pub const ELEVATE_TAIL: &'static str = "' -Verb RunAs";

/// What stands before the path of the launcher in the script that enters
/// it among the programs started at sign-in.
pub const AUTO_START_ON_HEAD: &'static str =
    "\ntry {\n    New-ItemProperty -Path \"HKCU:\\SOFTWARE\\Microsoft\\Windows\\CurrentVersion\\Run\" -Name \"Lora\" -Value '\"";

/// What stands after the path in that script.
pub const AUTO_START_ON_TAIL: &'static str =
    "\"' -PropertyType String -Force\n    Write-Output \"SUCCESS\"\n} catch {\n    Write-Error $_.Exception.Message\n    exit 1\n}\n";

/// The script that removes the launcher from the programs started at
/// sign-in.
pub const AUTO_START_OFF: &'static str =
    "\ntry {\n    Remove-ItemProperty -Path \"HKCU:\\SOFTWARE\\Microsoft\\Windows\\CurrentVersion\\Run\" -Name \"Lora\" -ErrorAction SilentlyContinue\n    Write-Output \"SUCCESS\"\n} catch {\n    Write-Error $_.Exception.Message\n    exit 1\n}\n";

/// The script that tells whether the launcher is started at sign-in.
pub const AUTO_START_STATUS: &'static str =
    "\ntry {\n    $value = Get-ItemProperty -Path \"HKCU:\\SOFTWARE\\Microsoft\\Windows\\CurrentVersion\\Run\" -Name \"Lora\" -ErrorAction SilentlyContinue\n    if ($value) { Write-Output \"TRUE\" } else { Write-Output \"FALSE\" }\n} catch { Write-Output \"FALSE\" }\n";

/// What stands before the title in the script of the file dialog.
pub const FILE_DIALOG_HEAD: &'static str =
    "\nAdd-Type -AssemblyName System.Windows.Forms\n$openFileDialog = New-Object System.Windows.Forms.OpenFileDialog\n$openFileDialog.Title = '";

/// What stands between the title and the filter in that script.
pub const FILE_DIALOG_MIDDLE: &'static str = "'\n$openFileDialog.Filter = '";

/// What stands after the filter in that script.
pub const FILE_DIALOG_TAIL: &'static str =
    "'\n$openFileDialog.RestoreDirectory = $true\n$result = $openFileDialog.ShowDialog()\nif ($result -eq [System.Windows.Forms.DialogResult]::OK) {\n    Write-Output $openFileDialog.FileName\n} else {\n    Write-Output \"\"\n}\n";

/// What stands before the title in the script of the folder dialog.
pub const FOLDER_DIALOG_HEAD: &'static str =
    "\nAdd-Type -AssemblyName System.Windows.Forms\n$folderBrowser = New-Object System.Windows.Forms.FolderBrowserDialog\n$folderBrowser.Description = '";

/// What stands after the title in that script.
pub const FOLDER_DIALOG_TAIL: &'static str =
    "'\n$folderBrowser.ShowNewFolderButton = $true\n$result = $folderBrowser.ShowDialog()\nif ($result -eq [System.Windows.Forms.DialogResult]::OK) {\n    Write-Output $folderBrowser.SelectedPath\n} else {\n    Write-Output \"\"\n}\n";

/// The script of the dialog that asks where to save an export.
pub const SAVE_DIALOG: &'static str =
    "\nAdd-Type -AssemblyName System.Windows.Forms\n$saveFileDialog = New-Object System.Windows.Forms.SaveFileDialog\n$saveFileDialog.Title = '导出数据'\n$saveFileDialog.Filter = 'JSON文件|*.json|所有文件|*.*'\n$saveFileDialog.DefaultExt = 'json'\n$saveFileDialog.FileName = \"lora_backup_$(Get-Date -Format 'yyyyMMdd_HHmmss').json\"\n$result = $saveFileDialog.ShowDialog()\nif ($result -eq [System.Windows.Forms.DialogResult]::OK) {\n    Write-Output $saveFileDialog.FileName\n} else {\n    Write-Output \"\"\n}\n";

/// What begins the report of a script that could not be run.
pub const SCRIPT_FAILURE: &'static str = "PowerShell执行失败: ";

/// What is reported when a dialog was cancelled.
pub const CANCELLED: &'static str = "用户取消了选择";

/// What is reported when the export dialog was cancelled.
pub const EXPORT_CANCELLED: &'static str = "用户取消了导出操作";

/// A script made of a fixed head, a quoted text from outside, and a fixed
/// tail.
pub open spec fn quoting(head: Seq<char>, text: Seq<char>, tail: Seq<char>) -> Seq<char> {
    head + escape_quotes(text) + tail
}

/// The icon that the output of the icon script carries: the output without
/// the white space at its ends, where that is the data URI of a PNG image.
pub open spec fn shell_icon_of(output: Seq<char>) -> Option<Seq<char>> {
    let text = trimmed_of(output);
    if text.len() > 0 && starts_with(text, PNG_PREFIX@) {
        Some(text)
    } else {
        None
    }
}

/// What a dialog script reports: the chosen path, or nothing when the user
/// cancelled.
pub open spec fn dialog_choice_of(output: Seq<char>) -> Option<Seq<char>> {
    let text = trimmed_of(output);
    if text.len() > 0 {
        Some(text)
    } else {
        None
    }
}

/// The extensions of a filter, as patterns joined by `;`.
pub open spec fn patterns_of(extensions: Seq<Seq<char>>) -> Seq<char>
    decreases extensions.len(),
{
    if extensions.len() == 0 {
        Seq::empty()
    } else if extensions.len() == 1 {
        extensions[0]
    } else {
        patterns_of(extensions.drop_last()) + ";*."@ + extensions.last()
    }
}

/// A filter of a file dialog: a name and the extensions that it shows.
#[derive(Clone, Debug, PartialEq)]
pub struct FileFilter {
    pub name: String,
    pub extensions: Vec<String>,
}

/// One filter as the dialog reads it.
pub open spec fn filter_entry_of(filter: FileFilter) -> Seq<char> {
    filter.name@ + "|*."@ + patterns_of(string_views(filter.extensions@))
}

/// The filters as the dialog reads them, separated by `|`.
pub open spec fn filter_text_of(filters: Seq<FileFilter>) -> Seq<char>
    decreases filters.len(),
{
    if filters.len() == 0 {
        Seq::empty()
    } else {
        let before = filter_text_of(filters.drop_last());
        if before.len() == 0 {
            filter_entry_of(filters.last())
        } else {
            before + "|"@ + filter_entry_of(filters.last())
        }
    }
}

/// Doubling the quotes adds one character for each quote and leaves
/// nothing else changed in length.
pub proof fn lemma_escape_length(s: Seq<char>)
    ensures
        escape_quotes(s).len() == s.len() + quote_count(s),
        quote_count(escape_quotes(s)) == 2 * quote_count(s),
    decreases s.len(),
{
    if s.len() > 0 {
        lemma_escape_length(s.drop_last());
        let rest = escape_quotes(s.drop_last());
        if s.last() == '\'' {
            let one = rest.push('\'');
            let two = one.push('\'');
            assert(one.drop_last() == rest);
            assert(two.drop_last() == one);
            assert(quote_count(one) == quote_count(rest) + 1);
            assert(quote_count(two) == quote_count(one) + 1);
        } else {
            let all = rest.push(s.last());
            assert(all.drop_last() == rest);
            assert(quote_count(all) == quote_count(rest));
        }
    }
}

/// A text without quotes is left as it is.
pub proof fn lemma_escape_without_quotes(s: Seq<char>)
    requires
        forall|i: int| 0 <= i < s.len() ==> s[i] != '\'',
    ensures
        escape_quotes(s) == s,
    decreases s.len(),
{
    if s.len() > 0 {
        lemma_escape_without_quotes(s.drop_last());
        assert(s.drop_last().push(s.last()) == s);
    }
}

/// Appends `text` to `out` with each single quote doubled.
fn push_escaped(out: &mut Vec<char>, text: &Vec<char>)
    ensures
        final(out)@ == old(out)@ + escape_quotes(text@),
{
    let mut i: usize = 0;
    assert(text@.take(0) == Seq::<char>::empty());
    while i < text.len()
        invariant
            i <= text.len(),
            out@ == old(out)@ + escape_quotes(text@.take(i as int)),
        decreases text.len() - i,
    {
        assert(text@.take(i + 1).drop_last() == text@.take(i as int));
        if text[i] == '\'' {
            out.push('\'');
            out.push('\'');
        } else {
            out.push(text[i]);
        }
        i += 1;
    }
    assert(text@.take(text@.len() as int) == text@);
}

/// A text with each single quote doubled, fit to stand between single
/// quotes in a script.
pub fn escape_single_quotes(text: &str) -> (escaped: String)
    ensures
        escaped@ == escape_quotes(text@),
{
    let mut out: Vec<char> = Vec::new();
    let t = chars_of(text);
    push_escaped(&mut out, &t);
    string_of(&out)
}

/// A script made of a fixed head, a quoted text from outside, and a fixed
/// tail.
fn quote_into(head: &str, text: &str, tail: &str) -> (script: Vec<char>)
    ensures
        script@ == quoting(head@, text@, tail@),
{
    let mut out = chars_of(head);
    let t = chars_of(text);
    push_escaped(&mut out, &t);
    let end = chars_of(tail);
    extend_chars(&mut out, &end);
    out
}

/// What is reported when the scripting host could not be started: a fixed
/// beginning, then what the system said.
pub fn script_failure_message(detail: &str) -> (text: String)
    ensures
        text@ == SCRIPT_FAILURE@ + detail@,
{
    joined(SCRIPT_FAILURE, detail)
}

/// The command that runs a script out of sight.
pub fn script_command(script: String) -> (c: Command)
    ensures
        c@ == script_command_of(script@),
{
    let mut arguments: Vec<String> = Vec::new();
    arguments.push("-WindowStyle".to_owned());
    arguments.push("Hidden".to_owned());
    arguments.push("-ExecutionPolicy".to_owned());
    arguments.push("Bypass".to_owned());
    arguments.push("-Command".to_owned());
    arguments.push(script);
    let c = Command {
        program: "powershell".to_owned(),
        arguments,
        working_dir: None,
        creation_flags: CREATE_NO_WINDOW,
        detached: false,
        discard_output: false,
    };
    assert(c@.arguments =~= script_arguments(script@));
    c
}

/// The command that asks the system shell for the icon it associates with
/// a file. Its output is to be handed to [`accept_shell_icon`].
pub fn icon_query_command(file_path: &str) -> (c: Command)
    ensures
        c@ == script_command_of(quoting(ICON_SCRIPT_HEAD@, file_path@, ICON_SCRIPT_TAIL@)),
{
    let script = quote_into(ICON_SCRIPT_HEAD, file_path, ICON_SCRIPT_TAIL);
    script_command(string_of(&script))
}

/// A text without the white space at its ends.
pub fn trim(text: &str) -> (r: String)
    ensures
        r@ == trimmed_of(text@),
{
    let s = chars_of(text);
    let mut end: usize = s.len();
    assert(s@.take(end as int) == s@);
    while end > 0 && is_whitespace(s[end - 1])
        invariant
            end <= s.len(),
            trim_end_of(s@.take(end as int)) == trim_end_of(s@),
        decreases end,
    {
        assert(s@.take(end as int).drop_last() == s@.take(end - 1));
        end -= 1;
    }
    let ghost t = s@.take(end as int);
    assert(t == trim_end_of(s@));
    let mut start: usize = 0;
    assert(s@.subrange(0, end as int) == t);
    while start < end && is_whitespace(s[start])
        invariant
            start <= end <= s.len(),
            trim_start_of(s@.subrange(start as int, end as int)) == trim_start_of(t),
        decreases end - start,
    {
        assert(s@.subrange(start as int, end as int).drop_first() == s@.subrange(
            start + 1,
            end as int,
        ));
        start += 1;
    }
    let r = slice_of(&s, start, end);
    string_of(&r)
}

/// Takes the output of the icon script: the icon, where the output is the
/// data URI of a PNG image, and nothing otherwise.
pub fn accept_shell_icon(output: &str) -> (icon: Option<String>)
    ensures
        opt_view(icon) == shell_icon_of(output@),
{
    let text = trim(output);
    let t = chars_of(text.as_str());
    if t.len() > 0 && begins_with(&t, PNG_PREFIX) {
        Some(text)
    } else {
        None
    }
}

/// Takes the output of a dialog script: the path that the user chose, or
/// nothing when the dialog was cancelled.
pub fn dialog_choice(output: &str) -> (choice: Option<String>)
    ensures
        opt_view(choice) == dialog_choice_of(output@),
{
    let text = trim(output);
    let t = chars_of(text.as_str());
    if t.len() > 0 {
        Some(text)
    } else {
        None
    }
}

/// The command that starts a program with raised privileges.
pub open spec fn elevated_command_of(app_path: Seq<char>) -> CommandView {
    CommandView {
        program: "powershell"@,
        arguments: seq![
            "-WindowStyle"@,
            "Hidden"@,
            "-Command"@,
            quoting(ELEVATE_HEAD@, app_path, ELEVATE_TAIL@),
        ],
        working_dir: None,
        creation_flags: CREATE_NO_WINDOW,
        detached: false,
        discard_output: false,
    }
}

/// The command that starts a program with raised privileges. The system
/// asks the user; whether the user declined is only known to whoever runs
/// the command.
pub fn run_as_admin(app_path: &str) -> (c: Command)
    ensures
        c@ == elevated_command_of(app_path@),
{
    let script = quote_into(ELEVATE_HEAD, app_path, ELEVATE_TAIL);
    let mut arguments: Vec<String> = Vec::new();
    arguments.push("-WindowStyle".to_owned());
    arguments.push("Hidden".to_owned());
    arguments.push("-Command".to_owned());
    arguments.push(string_of(&script));
    let c = Command {
        program: "powershell".to_owned(),
        arguments,
        working_dir: None,
        creation_flags: CREATE_NO_WINDOW,
        detached: false,
        discard_output: false,
    };
    assert(c@.arguments =~= seq![
        "-WindowStyle"@,
        "Hidden"@,
        "-Command"@,
        quoting(ELEVATE_HEAD@, app_path@, ELEVATE_TAIL@),
    ]);
    c
}

/// The command that shows the directory of a file in the file manager of
/// Windows. Fails for a path that names no directory.
pub fn open_file_location(file_path: &str) -> (r: Result<Command, LaunchError>)
    ensures
        match r {
            Ok(c) => parent_of(file_path@) is Some && c@ == (CommandView {
                program: "explorer"@,
                arguments: seq![parent_of(file_path@)->0],
                working_dir: None,
                creation_flags: CREATE_NO_WINDOW,
                detached: false,
                discard_output: false,
            }),
            Err(e) => parent_of(file_path@) is None && e == LaunchError::NoParentDirectory,
        },
{
    match parent(file_path) {
        Some(dir) => {
            let mut arguments: Vec<String> = Vec::new();
            arguments.push(dir);
            let c = Command {
                program: "explorer".to_owned(),
                arguments,
                working_dir: None,
                creation_flags: CREATE_NO_WINDOW,
                detached: false,
                discard_output: false,
            };
            assert(c@.arguments =~= seq![parent_of(file_path@)->0]);
            Ok(c)
        },
        None => Err(LaunchError::NoParentDirectory),
    }
}

/// The command that enters the launcher among the programs started at
/// sign-in, or removes it from them.
pub fn set_auto_start_windows(enable: bool, exe_path: &str) -> (c: Command)
    ensures
        c@ == script_command_of(
            if enable {
                quoting(AUTO_START_ON_HEAD@, exe_path@, AUTO_START_ON_TAIL@)
            } else {
                AUTO_START_OFF@
            },
        ),
{
    if enable {
        let script = quote_into(AUTO_START_ON_HEAD, exe_path, AUTO_START_ON_TAIL);
        script_command(string_of(&script))
    } else {
        script_command(AUTO_START_OFF.to_owned())
    }
}

/// The command that tells whether the launcher is started at sign-in.
pub fn check_auto_start_status() -> (c: Command)
    ensures
        c@ == script_command_of(AUTO_START_STATUS@),
{
    script_command(AUTO_START_STATUS.to_owned())
}

/// Reads the output of the status script: the launcher is started at
/// sign-in exactly when the output, white space aside, is `TRUE`.
pub fn is_auto_start_enabled(output: &str) -> (r: bool)
    ensures
        r == (trimmed_of(output@) == "TRUE"@),
{
    let text = trim(output);
    let t = chars_of(text.as_str());
    is_literal(&t, "TRUE")
}

/// The extensions of a filter, as patterns joined by `;`.
fn push_patterns(out: &mut Vec<char>, extensions: &Vec<String>)
    ensures
        final(out)@ == old(out)@ + patterns_of(string_views(extensions@)),
{
    let ghost all = string_views(extensions@);
    let mut i: usize = 0;
    assert(all.take(0) == Seq::<Seq<char>>::empty());
    while i < extensions.len()
        invariant
            i <= extensions.len(),
            all == string_views(extensions@),
            out@ == old(out)@ + patterns_of(all.take(i as int)),
        decreases extensions.len() - i,
    {
        assert(all.take(i + 1).drop_last() == all.take(i as int));
        assert(all.take(i + 1).last() == extensions@[i as int]@);
        if i > 0 {
            let sep = chars_of(";*.");
            extend_chars(out, &sep);
        }
        let ext = chars_of(extensions[i].as_str());
        extend_chars(out, &ext);
        assert(out@ =~= old(out)@ + patterns_of(all.take(i + 1))) by {
            if i == 0 {
                assert(all.take(1)[0] == extensions@[0]@);
            }
        }
        i += 1;
    }
    assert(all.take(all.len() as int) == all);
}

/// The filters as the dialog reads them.
pub fn filter_text(filters: &Vec<FileFilter>) -> (text: String)
    ensures
        text@ == filter_text_of(filters@),
{
    let mut out: Vec<char> = Vec::new();
    let mut i: usize = 0;
    assert(filters@.take(0) == Seq::<FileFilter>::empty());
    while i < filters.len()
        invariant
            i <= filters.len(),
            out@ == filter_text_of(filters@.take(i as int)),
        decreases filters.len() - i,
    {
        assert(filters@.take(i + 1).drop_last() == filters@.take(i as int));
        assert(filters@.take(i + 1).last() == filters@[i as int]);
        let ghost before = out@;
        if out.len() > 0 {
            out.push('|');
        }
        let name = chars_of(filters[i].name.as_str());
        extend_chars(&mut out, &name);
        let mark = chars_of("|*.");
        extend_chars(&mut out, &mark);
        push_patterns(&mut out, &filters[i].extensions);
        proof {
            reveal_strlit("|");
            assert("|"@ =~= seq!['|']);
            assert(out@ =~= filter_text_of(filters@.take(i + 1)));
        }
        i += 1;
    }
    assert(filters@.take(filters@.len() as int) == filters@);
    string_of(&out)
}

/// The command that shows a dialog for choosing a file.
pub fn open_file_dialog(title: &str, filters: &Vec<FileFilter>) -> (c: Command)
    ensures
        c@ == script_command_of(
            quoting(FILE_DIALOG_HEAD@, title@, FILE_DIALOG_MIDDLE@) + escape_quotes(
                filter_text_of(filters@),
            ) + FILE_DIALOG_TAIL@,
        ),
{
    let mut script = quote_into(FILE_DIALOG_HEAD, title, FILE_DIALOG_MIDDLE);
    let filter = filter_text(filters);
    let f = chars_of(filter.as_str());
    push_escaped(&mut script, &f);
    let tail = chars_of(FILE_DIALOG_TAIL);
    extend_chars(&mut script, &tail);
    script_command(string_of(&script))
}

/// The command that shows a dialog for choosing a folder.
pub fn open_folder_dialog(title: &str) -> (c: Command)
    ensures
        c@ == script_command_of(quoting(FOLDER_DIALOG_HEAD@, title@, FOLDER_DIALOG_TAIL@)),
{
    let script = quote_into(FOLDER_DIALOG_HEAD, title, FOLDER_DIALOG_TAIL);
    script_command(string_of(&script))
}

/// The command that shows a dialog for choosing where to save an export.
pub fn save_file_dialog() -> (c: Command)
    ensures
        c@ == script_command_of(SAVE_DIALOG@),
{
    script_command(SAVE_DIALOG.to_owned())
}

/// Whether every single quote of a text stands in a pair of two.
pub open spec fn quotes_paired(t: Seq<char>) -> bool
    decreases t.len(),
{
    if t.len() == 0 {
        true
    } else if t.last() != '\'' {
        quotes_paired(t.drop_last())
    } else {
        t.len() >= 2 && t[t.len() - 2] == '\'' && quotes_paired(t.drop_last().drop_last())
    }
}

/// In an escaped text every single quote stands in a pair, so that no quote
/// of it ends the quotation in which the text is put.
pub proof fn lemma_escaped_quotes_are_paired(s: Seq<char>)
    ensures
        quotes_paired(escape_quotes(s)),
    decreases s.len(),
{
    if s.len() > 0 {
        lemma_escaped_quotes_are_paired(s.drop_last());
        let rest = escape_quotes(s.drop_last());
        if s.last() == '\'' {
            let one = rest.push('\'');
            let two = one.push('\'');
            assert(two.drop_last() == one);
            assert(one.drop_last() == rest);
            assert(two[two.len() - 2] == '\'');
        } else {
            assert(rest.push(s.last()).drop_last() == rest);
        }
    }
}

} // verus!
