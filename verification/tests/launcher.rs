use lora_launcher::classify::PathProbe;
use lora_launcher::launcher::{
    after_attempt, launch, launch_app, launch_app_with_auto_hide, launch_as, open_folder, open_url, tokens_of_arguments, working_dir,
    Command, LaunchRequest,
    LaunchError, LaunchPlan, NextOpener, Operation, TargetFacts, CREATE_NO_WINDOW,
    DETACHED_NO_WINDOW, DETACHED_PROCESS, HIDE_DELAY_MILLIS,
};
use lora_launcher::platform::Platform;
use lora_launcher::shortcut::ShortcutKind;

fn strings(v: &[&str]) -> Vec<String> {
    v.iter().map(|s| s.to_string()).collect()
}

fn present() -> TargetFacts {
    TargetFacts { probe: PathProbe::File, resolved: None, target_probe: PathProbe::Missing }
}

fn opener(program: &str, arguments: &[&str]) -> Command {
    Command {
        program: program.to_string(),
        arguments: strings(arguments),
        working_dir: None,
        creation_flags: 0,
        detached: false,
        discard_output: false,
    }
}

#[test]
fn creation_flags() {
    assert_eq!(DETACHED_PROCESS | CREATE_NO_WINDOW, DETACHED_NO_WINDOW);
    assert_eq!(DETACHED_NO_WINDOW, 0x0800_0008);
}

#[test]
fn launch_with_arguments_on_windows() {
    let plan = launch_app(
        "C:\\Apps\\foo.exe",
        &Some("--flag value  --other".to_string()),
        Platform::Windows,
        &present(),
    );
    assert_eq!(
        plan,
        LaunchPlan::Spawn(Command {
            program: "C:\\Apps\\foo.exe".to_string(),
            arguments: strings(&["--flag", "value", "--other"]),
            working_dir: Some("C:\\Apps".to_string()),
            creation_flags: 0x0800_0008,
            detached: true,
            discard_output: true,
        })
    );
}

#[test]
fn launch_without_arguments_starts_the_target_itself() {
    for platform in [Platform::Windows, Platform::MacOs, Platform::Linux, Platform::Other] {
        let flags = if platform == Platform::Windows { 0x0800_0008 } else { 0 };
        for args in [None, Some(String::new()), Some("  \t ".to_string())] {
            let plan = launch_app("C:\\Apps\\run", &args, platform, &present());
            assert_eq!(
                plan,
                LaunchPlan::Spawn(Command {
                    program: "C:\\Apps\\run".to_string(),
                    arguments: Vec::new(),
                    working_dir: Some("C:\\Apps".to_string()),
                    creation_flags: flags,
                    detached: true,
                    discard_output: true,
                })
            );
        }
    }
}

#[test]
fn launch_on_other_platforms_starts_the_target() {
    let plan = launch_app("/opt/tool/bin/tool", &None, Platform::Linux, &present());
    assert_eq!(
        plan,
        LaunchPlan::Spawn(Command {
            program: "/opt/tool/bin/tool".to_string(),
            arguments: Vec::new(),
            working_dir: Some("/opt/tool/bin".to_string()),
            creation_flags: 0,
            detached: true,
            discard_output: true,
        })
    );
}

#[test]
fn launch_of_a_missing_target_fails() {
    let facts =
        TargetFacts { probe: PathProbe::Missing, resolved: None, target_probe: PathProbe::Missing };
    for path in ["C:\\gone.exe", "C:\\gone.lnk", "C:\\gone.url"] {
        assert_eq!(
            launch_app(path, &None, Platform::Windows, &facts),
            LaunchPlan::Fail(LaunchError::NotFound)
        );
    }
}

#[test]
fn shell_link_is_followed_to_its_target() {
    let facts = TargetFacts {
        probe: PathProbe::File,
        resolved: Some("C:\\Apps\\foo.exe".to_string()),
        target_probe: PathProbe::File,
    };
    let plan = launch_app("C:\\Desk\\Foo.LNK", &Some("-x".to_string()), Platform::Windows, &facts);
    assert_eq!(
        plan,
        LaunchPlan::Spawn(Command {
            program: "C:\\Apps\\foo.exe".to_string(),
            arguments: strings(&["-x"]),
            working_dir: Some("C:\\Apps".to_string()),
            creation_flags: 0x0800_0008,
            detached: true,
            discard_output: true,
        })
    );
    let plan = launch_app("C:\\Desk\\Foo.lnk", &None, Platform::Windows, &facts);
    assert_eq!(
        plan,
        LaunchPlan::Spawn(Command {
            program: "C:\\Apps\\foo.exe".to_string(),
            arguments: Vec::new(),
            working_dir: Some("C:\\Apps".to_string()),
            creation_flags: 0x0800_0008,
            detached: true,
            discard_output: true,
        })
    );
}

#[test]
fn the_kind_of_container_decides_the_plan() {
    let facts = TargetFacts {
        probe: PathProbe::File,
        resolved: Some("C:\\Apps\\foo.exe".to_string()),
        target_probe: PathProbe::File,
    };
    let spawn = |program: &str| {
        LaunchPlan::Spawn(Command {
            program: program.to_string(),
            arguments: strings(&["-x"]),
            working_dir: Some(lora_launcher::launcher::working_dir(program)),
            creation_flags: 0,
            detached: true,
            discard_output: true,
        })
    };
    let args = Some("-x".to_string());
    assert_eq!(
        launch_as(ShortcutKind::ShellLink, "anything", &args, Platform::Linux, &facts),
        spawn("C:\\Apps\\foo.exe")
    );
    assert_eq!(
        launch_as(ShortcutKind::NotAShortcut, "C:\\a.lnk", &args, Platform::Linux, &facts),
        spawn("C:\\a.lnk")
    );
    assert_eq!(
        launch_as(ShortcutKind::DesktopEntry, "/a/b.desktop", &args, Platform::Linux, &facts),
        spawn("/a/b.desktop")
    );
    assert_eq!(
        launch_as(ShortcutKind::InternetShortcut, "x", &args, Platform::Linux, &facts),
        LaunchPlan::Open(opener("xdg-open", &["C:\\Apps\\foo.exe", "-x"]))
    );
    assert_eq!(
        launch_as(ShortcutKind::ShellLink, "x", &args, Platform::Linux, &present()),
        LaunchPlan::Fail(LaunchError::UnresolvedShortcut)
    );
}

#[test]
fn shell_link_whose_target_is_gone_fails() {
    let facts = TargetFacts {
        probe: PathProbe::File,
        resolved: Some("C:\\Apps\\foo.exe".to_string()),
        target_probe: PathProbe::Missing,
    };
    let plan = launch_app("C:\\Desk\\Foo.lnk", &None, Platform::Windows, &facts);
    assert_eq!(plan, LaunchPlan::Fail(LaunchError::UnresolvedShortcut));
    assert_eq!(LaunchError::UnresolvedShortcut.message(), "无法解析快捷方式目标路径");
}

#[test]
fn shell_link_without_target_fails() {
    let plan = launch_app("C:\\Desk\\Foo.lnk", &Some("-x".to_string()), Platform::Windows, &present());
    assert_eq!(plan, LaunchPlan::Fail(LaunchError::UnresolvedShortcut));
}

#[test]
fn internet_shortcut_is_opened_as_an_address() {
    let facts = TargetFacts {
        probe: PathProbe::File,
        resolved: Some("https://example.com".to_string()),
        target_probe: PathProbe::Missing,
    };
    let plan = launch_app("C:\\Desk\\Site.url", &Some("-x".to_string()), Platform::Windows, &facts);
    assert_eq!(plan, LaunchPlan::Open(opener("explorer", &["https://example.com"])));
    let plan = launch_app("/home/me/Site.url", &Some("-x".to_string()), Platform::Linux, &facts);
    assert_eq!(plan, LaunchPlan::Open(opener("xdg-open", &["https://example.com", "-x"])));
}

#[test]
fn internet_shortcut_without_address_fails() {
    let plan = launch_app("C:\\Desk\\Site.url", &None, Platform::Windows, &present());
    assert_eq!(plan, LaunchPlan::Fail(LaunchError::UnresolvedUrlShortcut));
}

#[test]
fn addresses_are_opened_by_the_platform() {
    let args = Some("--new-window".to_string());
    assert_eq!(
        open_url("https://example.com", &args, Platform::Windows),
        LaunchPlan::Open(opener("explorer", &["https://example.com"]))
    );
    assert_eq!(
        open_url("https://example.com", &args, Platform::MacOs),
        LaunchPlan::Open(opener("open", &["https://example.com", "--new-window"]))
    );
    assert_eq!(
        open_url("https://example.com", &None, Platform::Linux),
        LaunchPlan::Open(opener("xdg-open", &["https://example.com"]))
    );
    assert_eq!(
        open_url("https://example.com", &None, Platform::Other),
        LaunchPlan::Fail(LaunchError::UrlUnsupported)
    );
}

#[test]
fn folders_must_exist_and_be_directories() {
    for platform in [Platform::Windows, Platform::MacOs, Platform::Linux, Platform::Other] {
        assert_eq!(
            open_folder("C:\\gone", &None, platform, PathProbe::Missing),
            LaunchPlan::Fail(LaunchError::FolderNotFound)
        );
        assert_eq!(
            open_folder("C:\\file.txt", &None, platform, PathProbe::File),
            LaunchPlan::Fail(LaunchError::NotAFolder)
        );
    }
}

#[test]
fn folders_are_opened_by_the_platform() {
    let args = Some("-a b".to_string());
    assert_eq!(
        open_folder("C:\\Games", &args, Platform::Windows, PathProbe::Directory),
        LaunchPlan::Open(opener("explorer", &["C:\\Games"]))
    );
    assert_eq!(
        open_folder("/Games", &args, Platform::MacOs, PathProbe::Directory),
        LaunchPlan::Open(opener("open", &["/Games", "-a", "b"]))
    );
    assert_eq!(
        open_folder("/Games", &None, Platform::Other, PathProbe::Directory),
        LaunchPlan::Fail(LaunchError::FolderUnsupported)
    );
}

#[test]
fn file_managers_are_tried_in_order() {
    let plan = open_folder("/home/me", &Some("-n".to_string()), Platform::Linux, PathProbe::Directory);
    assert_eq!(
        plan,
        LaunchPlan::OpenFirst(vec![
            opener("nautilus", &["/home/me", "-n"]),
            opener("dolphin", &["/home/me", "-n"]),
            opener("thunar", &["/home/me", "-n"]),
            opener("pcmanfm", &["/home/me", "-n"]),
        ])
    );
}

#[test]
fn search_for_an_opener() {
    assert_eq!(after_attempt(4, 0, true), NextOpener::Opened);
    assert_eq!(after_attempt(4, 0, false), NextOpener::Try(1));
    assert_eq!(after_attempt(4, 2, false), NextOpener::Try(3));
    assert_eq!(after_attempt(4, 3, false), NextOpener::Failed(LaunchError::NoFileManager));
    assert_eq!(after_attempt(4, 3, true), NextOpener::Opened);
    assert_eq!(after_attempt(0, 0, false), NextOpener::Failed(LaunchError::NoFileManager));
    assert_eq!(after_attempt(1, usize::MAX, false), NextOpener::Failed(LaunchError::NoFileManager));
}

#[test]
fn working_directory_of_a_program() {
    assert_eq!(working_dir("C:\\Apps\\foo.exe"), "C:\\Apps");
    assert_eq!(working_dir("foo.exe"), "");
    assert_eq!(working_dir(""), ".");
    assert_eq!(working_dir("/"), ".");
}

#[test]
fn tokens_of_optional_arguments() {
    assert_eq!(tokens_of_arguments(&None), Vec::<String>::new());
    assert_eq!(tokens_of_arguments(&Some(" a  b ".to_string())), strings(&["a", "b"]));
}

#[test]
fn launch_messages() {
    assert_eq!(LaunchError::NotFound.message(), "应用文件不存在");
    assert_eq!(LaunchError::UnresolvedUrlShortcut.message(), "无法解析URL快捷方式");
    assert_eq!(LaunchError::FolderNotFound.message(), "文件夹不存在");
    assert_eq!(LaunchError::NotAFolder.message(), "路径不是文件夹");
    assert_eq!(LaunchError::NoFileManager.message(), "未找到可用的文件管理器");
    assert_eq!(LaunchError::UrlUnsupported.message(), "当前平台不支持打开网址");
    assert_eq!(LaunchError::FolderUnsupported.message(), "当前平台不支持打开文件夹");
    assert_eq!(LaunchError::NoParentDirectory.message(), "无法获取文件目录");
    assert_eq!(Operation::LaunchApp.success_message(), "应用启动成功");
    assert_eq!(Operation::OpenUrl.success_message(), "网址打开成功");
    assert_eq!(Operation::OpenFolder.success_message(), "文件夹打开成功");
    assert_eq!(Operation::RunAsAdmin.success_message(), "应用以管理员权限启动成功");
    assert_eq!(Operation::OpenFileLocation.success_message(), "已打开文件所在目录");
    assert_eq!(Operation::LaunchApp.failure_message("拒绝访问"), "启动应用失败: 拒绝访问");
    assert_eq!(Operation::OpenUrl.failure_message("x"), "打开网址失败: x");
    assert_eq!(Operation::OpenFolder.failure_message("x"), "打开文件夹失败: x");
    assert_eq!(Operation::RunAsAdmin.failure_message("x"), "以管理员权限启动应用失败: x");
    assert_eq!(Operation::OpenFileLocation.failure_message("x"), "打开目录失败: x");
}

#[test]
fn requests_without_elevation_are_launched_as_usual() {
    let request = LaunchRequest {
        target: "C:\\Apps\\foo.exe".to_string(),
        arguments: Some("-x".to_string()),
        elevate: false,
    };
    assert_eq!(
        launch(&request, Platform::Windows, &present()),
        launch_app("C:\\Apps\\foo.exe", &Some("-x".to_string()), Platform::Windows, &present())
    );
}

#[test]
fn requests_with_elevation_go_to_the_prompt() {
    let request =
        LaunchRequest { target: "C:\\Apps\\foo.exe".to_string(), arguments: None, elevate: true };
    assert_eq!(
        launch(&request, Platform::Windows, &present()),
        LaunchPlan::Open(Command {
            program: "powershell".to_string(),
            arguments: strings(&[
                "-WindowStyle",
                "Hidden",
                "-Command",
                "Start-Process 'C:\\Apps\\foo.exe' -Verb RunAs"
            ]),
            working_dir: None,
            creation_flags: 0x0800_0000,
            detached: false,
            discard_output: false,
        })
    );
    assert_eq!(
        launch(&request, Platform::Linux, &present()),
        LaunchPlan::Fail(LaunchError::ElevationUnsupported)
    );
    let gone =
        TargetFacts { probe: PathProbe::Missing, resolved: None, target_probe: PathProbe::Missing };
    assert_eq!(launch(&request, Platform::Windows, &gone), LaunchPlan::Fail(LaunchError::NotFound));
    assert_eq!(
        LaunchError::ElevationUnsupported.message(),
        "当前平台不支持以管理员权限启动应用"
    );
}

#[test]
fn the_window_hides_after_a_launch_where_the_settings_say_so() {
    let mut settings = lora_launcher::settings::get_default_settings();
    let launch = |settings: &lora_launcher::models::AppSettings, facts: &TargetFacts| {
        launch_app_with_auto_hide("C:\\Apps\\foo.exe", &None, Platform::Windows, facts, settings)
    };
    let plan = launch_app("C:\\Apps\\foo.exe", &None, Platform::Windows, &present());
    assert_eq!(launch(&settings, &present()), (plan, None));
    settings.auto_hide_after_launch = Some(true);
    assert_eq!(launch(&settings, &present()).1, Some(300));
    assert_eq!(HIDE_DELAY_MILLIS, 300);
    settings.auto_hide_after_launch = None;
    assert_eq!(launch(&settings, &present()).1, None);
}

#[test]
fn the_window_stays_when_the_launch_fails() {
    let mut settings = lora_launcher::settings::get_default_settings();
    settings.auto_hide_after_launch = Some(true);
    let gone =
        TargetFacts { probe: PathProbe::Missing, resolved: None, target_probe: PathProbe::Missing };
    assert_eq!(
        launch_app_with_auto_hide("C:\\gone.exe", &None, Platform::Windows, &gone, &settings),
        (LaunchPlan::Fail(LaunchError::NotFound), None)
    );
}
