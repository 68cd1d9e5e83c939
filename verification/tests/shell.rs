use lora_launcher::launcher::{Command, LaunchError};
use lora_launcher::shell::{
    accept_shell_icon, check_auto_start_status, dialog_choice, escape_single_quotes, filter_text,
    icon_query_command, is_auto_start_enabled, open_file_dialog, open_file_location,
    open_folder_dialog, run_as_admin, save_file_dialog, script_command, script_failure_message,
    set_auto_start_windows, trim, FileFilter, AUTO_START_OFF, AUTO_START_STATUS, CANCELLED,
    EXPORT_CANCELLED, ICON_SCRIPT_HEAD, ICON_SCRIPT_TAIL, SAVE_DIALOG,
};

fn strings(v: &[&str]) -> Vec<String> {
    v.iter().map(|s| s.to_string()).collect()
}

fn script_of(c: &Command) -> String {
    assert_eq!(c.program, "powershell");
    assert_eq!(
        c.arguments[..5],
        strings(&["-WindowStyle", "Hidden", "-ExecutionPolicy", "Bypass", "-Command"])[..]
    );
    assert_eq!(c.arguments.len(), 6);
    assert_eq!(c.working_dir, None);
    assert_eq!(c.creation_flags, 0x0800_0000);
    assert!(!c.detached && !c.discard_output);
    c.arguments[5].clone()
}

fn filter(name: &str, extensions: &[&str]) -> FileFilter {
    FileFilter { name: name.to_string(), extensions: strings(extensions) }
}

#[test]
fn single_quotes_are_doubled() {
    assert_eq!(escape_single_quotes("C:\\Users\\O'Brien\\app.exe"), "C:\\Users\\O''Brien\\app.exe");
    assert_eq!(escape_single_quotes("''"), "''''");
    assert_eq!(escape_single_quotes("plain"), "plain");
    assert_eq!(escape_single_quotes(""), "");
    assert_eq!(escape_single_quotes("a\"b"), "a\"b");
}

#[test]
fn escaping_agrees_with_replacing() {
    for text in ["", "'", "a'b'c", "'; Remove-Item x; '", "no quotes"] {
        assert_eq!(escape_single_quotes(text), text.replace("'", "''"));
    }
}

#[test]
fn trimming() {
    assert_eq!(trim("  a b \r\n"), "a b");
    assert_eq!(trim("\u{3000}x\u{00A0}"), "x");
    assert_eq!(trim(" \t\n"), "");
    assert_eq!(trim(""), "");
    assert_eq!(trim("x"), "x");
}

#[test]
fn trimming_agrees_with_the_standard_library() {
    for text in ["", " ", "a", " a", "a ", "\u{2003}a b\u{2003}", "\n\na\n\n", "\u{000B}v\u{0085}"] {
        assert_eq!(trim(text), text.trim());
    }
}

#[test]
fn icon_query_quotes_the_path() {
    let c = icon_query_command("C:\\It's\\app.exe");
    let script = script_of(&c);
    assert_eq!(script, format!("{}C:\\It''s\\app.exe{}", ICON_SCRIPT_HEAD, ICON_SCRIPT_TAIL));
    assert!(script.contains("ExtractAssociatedIcon('C:\\It''s\\app.exe')"));
    assert!(script.contains("Write-Output \"data:image/png;base64,$base64\""));
}

#[test]
fn shell_icon_is_accepted_when_it_is_a_png_data_uri() {
    assert_eq!(
        accept_shell_icon("data:image/png;base64,iVBORw0KGgo=\r\n"),
        Some("data:image/png;base64,iVBORw0KGgo=".to_string())
    );
    assert_eq!(
        accept_shell_icon("  data:image/png;base64,"),
        Some("data:image/png;base64,".to_string())
    );
}

#[test]
fn shell_icon_is_refused_otherwise() {
    assert_eq!(accept_shell_icon(""), None);
    assert_eq!(accept_shell_icon("\r\n"), None);
    assert_eq!(accept_shell_icon("data:image/jpeg;base64,AAAA"), None);
    assert_eq!(accept_shell_icon("error: data:image/png;base64,AAAA"), None);
    assert_eq!(accept_shell_icon("DATA:IMAGE/PNG;BASE64,AAAA"), None);
}

#[test]
fn dialog_choices() {
    assert_eq!(dialog_choice("C:\\Users\\me\\file.json\r\n"), Some("C:\\Users\\me\\file.json".to_string()));
    assert_eq!(dialog_choice("\r\n"), None);
    assert_eq!(dialog_choice(""), None);
    assert_eq!(CANCELLED, "用户取消了选择");
    assert_eq!(EXPORT_CANCELLED, "用户取消了导出操作");
}

#[test]
fn elevated_launch() {
    assert_eq!(
        run_as_admin("C:\\Apps\\O'Neil\\tool.exe"),
        Command {
            program: "powershell".to_string(),
            arguments: strings(&[
                "-WindowStyle",
                "Hidden",
                "-Command",
                "Start-Process 'C:\\Apps\\O''Neil\\tool.exe' -Verb RunAs"
            ]),
            working_dir: None,
            creation_flags: 0x0800_0000,
            detached: false,
            discard_output: false,
        }
    );
}

#[test]
fn file_location() {
    assert_eq!(
        open_file_location("C:\\Apps\\foo.exe"),
        Ok(Command {
            program: "explorer".to_string(),
            arguments: strings(&["C:\\Apps"]),
            working_dir: None,
            creation_flags: 0x0800_0000,
            detached: false,
            discard_output: false,
        })
    );
    assert_eq!(open_file_location("foo.exe").unwrap().arguments, strings(&[""]));
    assert_eq!(open_file_location(""), Err(LaunchError::NoParentDirectory));
    assert_eq!(open_file_location("\\"), Err(LaunchError::NoParentDirectory));
}

#[test]
fn auto_start_scripts() {
    let on = script_of(&set_auto_start_windows(true, "C:\\Program Files\\Lora\\lora.exe"));
    assert!(on.contains("New-ItemProperty -Path \"HKCU:\\SOFTWARE\\Microsoft\\Windows\\CurrentVersion\\Run\" -Name \"Lora\" -Value '\"C:\\Program Files\\Lora\\lora.exe\"' -PropertyType String -Force"));
    let quoted = script_of(&set_auto_start_windows(true, "C:\\It's\\lora.exe"));
    assert!(quoted.contains("-Value '\"C:\\It''s\\lora.exe\"'"));
    let off = script_of(&set_auto_start_windows(false, "ignored'"));
    assert_eq!(off, AUTO_START_OFF);
    assert!(off.contains("Remove-ItemProperty"));
    assert_eq!(script_of(&check_auto_start_status()), AUTO_START_STATUS);
}

#[test]
fn auto_start_status() {
    assert!(is_auto_start_enabled("TRUE\r\n"));
    assert!(is_auto_start_enabled("  TRUE"));
    assert!(!is_auto_start_enabled("FALSE\r\n"));
    assert!(!is_auto_start_enabled("true"));
    assert!(!is_auto_start_enabled(""));
    assert!(!is_auto_start_enabled("TRUE FALSE"));
}

#[test]
fn filters_of_a_file_dialog() {
    assert_eq!(filter_text(&Vec::new()), "");
    assert_eq!(filter_text(&vec![filter("JSON", &["json"])]), "JSON|*.json");
    assert_eq!(
        filter_text(&vec![filter("Images", &["png", "jpg", "gif"]), filter("All", &["*"])]),
        "Images|*.png;*.jpg;*.gif|All|*.*"
    );
    assert_eq!(filter_text(&vec![filter("None", &[])]), "None|*.");
    assert_eq!(filter_text(&vec![filter("", &[]), filter("B", &["b"])]), "|*.|B|*.b");
}

#[test]
fn file_dialog_quotes_title_and_filter() {
    let script = script_of(&open_file_dialog("Pick 'one'", &vec![filter("It's", &["a"])]));
    assert!(script.contains("$openFileDialog.Title = 'Pick ''one'''\n"));
    assert!(script.contains("$openFileDialog.Filter = 'It''s|*.a'\n"));
    assert!(script.ends_with("    Write-Output \"\"\n}\n"));
}

#[test]
fn folder_dialog_quotes_the_title() {
    let script = script_of(&open_folder_dialog("Where's it?"));
    assert!(script.contains("$folderBrowser.Description = 'Where''s it?'\n"));
    assert!(script.contains("Write-Output $folderBrowser.SelectedPath"));
}

#[test]
fn save_dialog_script() {
    let script = script_of(&save_file_dialog());
    assert_eq!(script, SAVE_DIALOG);
    assert!(script.contains("$saveFileDialog.Title = '导出数据'"));
    assert!(script.contains("$saveFileDialog.Filter = 'JSON文件|*.json|所有文件|*.*'"));
}

#[test]
fn script_commands_and_failures() {
    assert_eq!(script_of(&script_command("Get-Date".to_string())), "Get-Date");
    assert_eq!(script_failure_message("not found"), "PowerShell执行失败: not found");
}
