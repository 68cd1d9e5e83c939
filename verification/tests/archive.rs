use image::ImageEncoder;
use lora_launcher::archive::{
    choose_icon, extraction_command, icon_of_file, is_icon_path, largest_icon, temp_dir_name,
    ArchiveError, ExtractedFile, ToolRun,
};
use lora_launcher::launcher::Command;

fn file(path: &str, size: u64) -> ExtractedFile {
    ExtractedFile { path: path.to_string(), size }
}

#[test]
fn largest_icon_is_chosen() {
    let files = vec![file("t/1.ico", 100), file("t/2.ico", 4000), file("t/3.ico", 300)];
    assert_eq!(largest_icon(&files), Some(1));
}

#[test]
fn other_files_are_passed_over() {
    let files = vec![file("t/big.bin", 1 << 30), file("t/a.ico", 10), file("t/b.png", 9000)];
    assert_eq!(largest_icon(&files), Some(1));
}

#[test]
fn without_icon_files_there_is_no_choice() {
    assert_eq!(largest_icon(&Vec::new()), None);
    assert_eq!(largest_icon(&vec![file(".rsrc", 1), file("a.exe", 2)]), None);
}

#[test]
fn of_equally_large_icons_the_last_is_chosen() {
    let files = vec![file("a.ico", 5), file("b.ico", 7), file("c.ico", 7), file("d.ico", 6)];
    assert_eq!(largest_icon(&files), Some(2));
}

#[test]
fn icon_extension_is_matched_in_lowercase() {
    assert!(is_icon_path("temp_icons_1/1.ico"));
    assert!(!is_icon_path("temp_icons_1/1.ICO"));
    assert!(!is_icon_path("ico"));
    assert_eq!(largest_icon(&vec![file("A.ICO", 10)]), None);
}

#[test]
fn temp_dir_names() {
    assert_eq!(temp_dir_name(1730000000123), "temp_icons_1730000000123");
    assert_eq!(temp_dir_name(0), "temp_icons_0");
    assert_eq!(temp_dir_name(10), "temp_icons_10");
    assert_eq!(
        temp_dir_name(u128::MAX),
        "temp_icons_340282366920938463463374607431768211455"
    );
}

#[test]
fn extraction_command_line() {
    assert_eq!(
        extraction_command("C:\\Apps\\foo.exe", "temp_icons_42"),
        Command {
            program: "7z".to_string(),
            arguments: vec![
                "e".to_string(),
                "C:\\Apps\\foo.exe".to_string(),
                "-otemp_icons_42".to_string()
            ],
            working_dir: None,
            creation_flags: 0,
            detached: false,
            discard_output: false,
        }
    );
}

#[test]
fn nothing_is_read_when_the_tool_failed() {
    let files = vec![file("a.ico", 5)];
    assert_eq!(choose_icon(ToolRun::NotStarted, &files), Err(ArchiveError::ToolNotStarted));
    assert_eq!(
        choose_icon(ToolRun::Exited { success: false }, &files),
        Err(ArchiveError::ToolFailed)
    );
}

#[test]
fn the_largest_icon_is_read_when_the_tool_succeeded() {
    let files = vec![file("a.ico", 5), file("b.ico", 9), file("c.bin", 100)];
    assert_eq!(choose_icon(ToolRun::Exited { success: true }, &files), Ok(1));
    assert_eq!(
        choose_icon(ToolRun::Exited { success: true }, &vec![file("c.bin", 100)]),
        Err(ArchiveError::NoIconFile)
    );
    assert_eq!(
        choose_icon(ToolRun::Exited { success: true }, &Vec::new()),
        Err(ArchiveError::NoIconFile)
    );
}

#[test]
fn icon_of_the_chosen_file() {
    assert_eq!(icon_of_file(&None), Err(ArchiveError::UnreadableIcon));
    assert_eq!(icon_of_file(&Some(b"junk".to_vec())), Err(ArchiveError::UndecodableIcon));
    let mut ico = Vec::new();
    image::codecs::ico::IcoEncoder::new(&mut ico)
        .write_image(&[1, 2, 3, 255], 1, 1, image::ColorType::Rgba8)
        .unwrap();
    let uri = icon_of_file(&Some(ico.clone())).unwrap();
    assert_eq!(Some(uri), lora_launcher::encoding::ico_data_uri(&ico));
}

#[test]
fn archive_messages() {
    assert_eq!(ArchiveError::ToolNotStarted.message(), "执行 7z 失败");
    assert_eq!(ArchiveError::ToolFailed.message(), "7z 提取失败");
    assert_eq!(ArchiveError::NoIconFile.message(), "未找到 ico 文件");
    assert_eq!(ArchiveError::UnreadableIcon.message(), "加载 ico 文件失败");
    assert_eq!(ArchiveError::UndecodableIcon.message(), "转换 ico 为 PNG 失败");
}
