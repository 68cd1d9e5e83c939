use lora_launcher::platform::Platform;
use lora_launcher::shortcut::{
    is_shortcut, kind_of_extension, parse_url_shortcut, resolve_if_shortcut,
    resolve_shortcut_target, shortcut_kind, target_for_kind, ShortcutContents, ShortcutKind,
};

fn some(s: &str) -> Option<String> {
    Some(s.to_string())
}

#[test]
fn shortcut_extensions() {
    assert!(is_shortcut("C:\\Users\\me\\Desktop\\Game.lnk"));
    assert!(is_shortcut("site.url"));
    assert!(is_shortcut("/usr/share/applications/app.desktop"));
}

#[test]
fn shortcut_extensions_in_any_case() {
    assert!(is_shortcut("GAME.LNK"));
    assert!(is_shortcut("Site.Url"));
    assert!(is_shortcut("app.DeskTop"));
}

#[test]
fn other_extensions_are_no_shortcuts() {
    assert!(!is_shortcut("notes.txt"));
    assert!(!is_shortcut("lnk"));
    assert!(!is_shortcut("game.lnk.bak"));
    assert!(!is_shortcut("game.lnk2"));
    assert!(!is_shortcut(".lnk"));
    assert!(!is_shortcut(""));
}

#[test]
fn kinds_by_extension() {
    assert_eq!(shortcut_kind("a.LNK"), ShortcutKind::ShellLink);
    assert_eq!(shortcut_kind("a.url"), ShortcutKind::InternetShortcut);
    assert_eq!(shortcut_kind("a.desktop"), ShortcutKind::DesktopEntry);
    assert_eq!(shortcut_kind("a.exe"), ShortcutKind::NotAShortcut);
    assert_eq!(kind_of_extension("lnk"), ShortcutKind::ShellLink);
    assert_eq!(kind_of_extension("LNK"), ShortcutKind::NotAShortcut);
}

#[test]
fn url_file_round_trip() {
    let content = "[InternetShortcut]\r\nURL=https://example.com\r\n";
    assert_eq!(parse_url_shortcut(content), some("https://example.com"));
    let contents = ShortcutContents::Text(content.to_string());
    assert_eq!(
        resolve_shortcut_target("C:\\Links\\Example.url", Platform::Windows, &contents),
        some("https://example.com")
    );
}

#[test]
fn url_files_are_read_on_every_platform() {
    let contents = ShortcutContents::Text("URL=https://example.com".to_string());
    for platform in [Platform::Windows, Platform::MacOs, Platform::Linux, Platform::Other] {
        assert_eq!(
            resolve_shortcut_target("x.url", platform, &contents),
            some("https://example.com")
        );
    }
}

#[test]
fn first_url_line_wins() {
    assert_eq!(parse_url_shortcut("URL=a\nURL=b\n"), some("a"));
    assert_eq!(parse_url_shortcut("IconFile=x\nurl=lower\nURL=upper"), some("upper"));
}

#[test]
fn the_key_is_removed_once() {
    assert_eq!(parse_url_shortcut("URL=URL=x"), some("URL=x"));
    assert_eq!(parse_url_shortcut("URL="), some(""));
}

#[test]
fn the_key_must_begin_the_line() {
    assert_eq!(parse_url_shortcut(" URL=x"), None);
    assert_eq!(parse_url_shortcut("BASEURL=x"), None);
    assert_eq!(parse_url_shortcut(""), None);
    assert_eq!(parse_url_shortcut("[InternetShortcut]\n"), None);
}

#[test]
fn shell_links_resolve_on_windows_only() {
    let contents = ShortcutContents::LocalBasePath("C:\\Apps\\foo.exe".to_string());
    assert_eq!(
        resolve_shortcut_target("Foo.lnk", Platform::Windows, &contents),
        some("C:\\Apps\\foo.exe")
    );
    assert_eq!(resolve_shortcut_target("Foo.lnk", Platform::Linux, &contents), None);
    assert_eq!(resolve_shortcut_target("Foo.lnk", Platform::MacOs, &contents), None);
}

#[test]
fn unreadable_shortcuts_have_no_target() {
    assert_eq!(
        resolve_shortcut_target("Foo.lnk", Platform::Windows, &ShortcutContents::Unavailable),
        None
    );
    assert_eq!(
        resolve_shortcut_target("Foo.url", Platform::Windows, &ShortcutContents::Unavailable),
        None
    );
}

#[test]
fn contents_of_the_wrong_kind_are_not_used() {
    let text = ShortcutContents::Text("URL=https://example.com".to_string());
    let link = ShortcutContents::LocalBasePath("C:\\x.exe".to_string());
    assert_eq!(resolve_shortcut_target("Foo.lnk", Platform::Windows, &text), None);
    assert_eq!(resolve_shortcut_target("Foo.url", Platform::Windows, &link), None);
}

#[test]
fn what_is_no_shortcut_resolves_to_nothing() {
    let link = ShortcutContents::LocalBasePath("C:\\x.exe".to_string());
    assert_eq!(resolve_if_shortcut("notes.txt", Platform::Windows, &link), None);
    assert_eq!(resolve_if_shortcut("app.desktop", Platform::Linux, &link), None);
    assert_eq!(resolve_if_shortcut("Foo.LNK", Platform::Windows, &link), some("C:\\x.exe"));
}

#[test]
fn the_kind_decides_what_is_read() {
    let link = ShortcutContents::LocalBasePath("C:\\x.exe".to_string());
    let text = ShortcutContents::Text("URL=https://example.com".to_string());
    assert_eq!(target_for_kind(ShortcutKind::ShellLink, Platform::Windows, &link), some("C:\\x.exe"));
    assert_eq!(target_for_kind(ShortcutKind::ShellLink, Platform::Linux, &link), None);
    assert_eq!(target_for_kind(ShortcutKind::ShellLink, Platform::Windows, &text), None);
    assert_eq!(
        target_for_kind(ShortcutKind::InternetShortcut, Platform::Other, &text),
        some("https://example.com")
    );
    assert_eq!(target_for_kind(ShortcutKind::InternetShortcut, Platform::Windows, &link), None);
    assert_eq!(target_for_kind(ShortcutKind::DesktopEntry, Platform::Linux, &text), None);
    assert_eq!(target_for_kind(ShortcutKind::NotAShortcut, Platform::Windows, &link), None);
}
