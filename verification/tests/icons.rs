use lora_launcher::icons::{
    acquire_icon, acquire_with_extension, continue_acquisition, continue_with_extension,
    extract_file_icon, fallback_for_extension, fallback_icon, has_own_icons, is_executable_ext,
    semantic_tag, start_acquisition, start_with_extension, IconResult, IconStep, IconTier,
    TierOutcomes,
};

fn some(s: &str) -> Option<String> {
    Some(s.to_string())
}

fn nothing() -> TierOutcomes {
    TierOutcomes { favicon: None, native_bitmap: None, archive_resources: None, shell_query: None }
}

#[test]
fn tag_of_a_text_file() {
    assert_eq!(extract_file_icon("notes.txt"), some("text"));
}

#[test]
fn tag_ignores_case() {
    assert_eq!(extract_file_icon("C:\\Apps\\Setup.MSI"), some("installer"));
    assert_eq!(extract_file_icon("photo.JPeG"), some("image"));
}

#[test]
fn unknown_extension_has_no_tag() {
    assert_eq!(extract_file_icon("data.xyz"), None);
    assert_eq!(extract_file_icon("C:\\Missing\\dir"), None);
    assert_eq!(semantic_tag(""), None);
}

#[test]
fn every_known_extension_has_its_tag() {
    let table = [
        ("exe", "exe"),
        ("msi", "installer"),
        ("lnk", "shortcut"),
        ("txt", "text"),
        ("pdf", "pdf"),
        ("doc", "word"),
        ("docx", "word"),
        ("xls", "excel"),
        ("xlsx", "excel"),
        ("ppt", "powerpoint"),
        ("pptx", "powerpoint"),
        ("zip", "archive"),
        ("rar", "archive"),
        ("7z", "archive"),
        ("jpg", "image"),
        ("jpeg", "image"),
        ("png", "image"),
        ("gif", "image"),
        ("bmp", "image"),
        ("mp3", "audio"),
        ("wav", "audio"),
        ("flac", "audio"),
        ("mp4", "video"),
        ("avi", "video"),
        ("mkv", "video"),
        ("html", "web"),
        ("htm", "web"),
        ("url", "web"),
        ("js", "javascript"),
        ("ts", "javascript"),
        ("py", "python"),
        ("java", "java"),
        ("cpp", "code"),
        ("c", "code"),
        ("h", "code"),
        ("json", "json"),
        ("xml", "xml"),
        ("css", "css"),
    ];
    for (ext, tag) in table {
        assert_eq!(semantic_tag(ext), some(tag));
        assert_eq!(extract_file_icon(&format!("file.{}", ext)), some(tag));
    }
}

#[test]
fn tags_are_looked_up_in_lowercase() {
    assert_eq!(semantic_tag("EXE"), None);
    assert_eq!(semantic_tag("exe "), None);
}

#[test]
fn search_for_an_address_begins_at_its_site() {
    assert_eq!(
        start_acquisition("https://example.com/app.exe", true),
        IconStep::Attempt(IconTier::Favicon)
    );
}

#[test]
fn search_for_an_executable_begins_at_the_native_icon() {
    assert_eq!(
        start_acquisition("C:\\Apps\\foo.exe", false),
        IconStep::Attempt(IconTier::NativeBitmap)
    );
    assert_eq!(
        start_acquisition("C:\\Apps\\FOO.EXE", false),
        IconStep::Attempt(IconTier::NativeBitmap)
    );
    assert!(has_own_icons("a.exe"));
    assert!(!has_own_icons("a.msi"));
}

#[test]
fn search_for_a_plain_file_ends_at_its_tag() {
    assert_eq!(
        start_acquisition("notes.txt", false),
        IconStep::Finished(IconResult::SemanticTag("text".to_string()))
    );
    assert_eq!(start_acquisition("data.xyz", false), IconStep::Finished(IconResult::Empty));
}

#[test]
fn an_image_ends_the_search() {
    for tier in [
        IconTier::Favicon,
        IconTier::NativeBitmap,
        IconTier::ArchiveResources,
        IconTier::ShellQuery,
    ] {
        assert_eq!(
            continue_acquisition("a.exe", tier, some("data:image/png;base64,AAAA")),
            IconStep::Finished(IconResult::DataUri("data:image/png;base64,AAAA".to_string()))
        );
    }
}

#[test]
fn failures_fall_through_in_order() {
    assert_eq!(
        continue_acquisition("a.exe", IconTier::NativeBitmap, None),
        IconStep::Attempt(IconTier::ArchiveResources)
    );
    assert_eq!(
        continue_acquisition("a.exe", IconTier::ArchiveResources, None),
        IconStep::Attempt(IconTier::ShellQuery)
    );
    assert_eq!(
        continue_acquisition("a.exe", IconTier::ShellQuery, None),
        IconStep::Finished(IconResult::SemanticTag("exe".to_string()))
    );
}

#[test]
fn a_site_without_icon_leaves_the_icon_empty() {
    assert_eq!(
        continue_acquisition("https://example.com/page.html", IconTier::Favicon, None),
        IconStep::Finished(IconResult::Empty)
    );
    assert_eq!(acquire_icon("https://example.com/page.html", true, &nothing()), IconResult::Empty);
}

#[test]
fn first_image_wins() {
    let mut outcomes = nothing();
    outcomes.shell_query = some("shell");
    assert_eq!(acquire_icon("a.exe", false, &outcomes), IconResult::DataUri("shell".to_string()));
    outcomes.archive_resources = some("archive");
    assert_eq!(
        acquire_icon("a.exe", false, &outcomes),
        IconResult::DataUri("archive".to_string())
    );
    outcomes.native_bitmap = some("native");
    assert_eq!(acquire_icon("a.exe", false, &outcomes), IconResult::DataUri("native".to_string()));
    outcomes.favicon = some("favicon");
    assert_eq!(acquire_icon("a.exe", false, &outcomes), IconResult::DataUri("native".to_string()));
    assert_eq!(acquire_icon("a.exe", true, &outcomes), IconResult::DataUri("favicon".to_string()));
}

#[test]
fn sources_of_executables_are_not_asked_for_other_files() {
    let outcomes = TierOutcomes {
        favicon: some("favicon"),
        native_bitmap: some("native"),
        archive_resources: some("archive"),
        shell_query: some("shell"),
    };
    assert_eq!(
        acquire_icon("notes.txt", false, &outcomes),
        IconResult::SemanticTag("text".to_string())
    );
}

#[test]
fn unreachable_executable_gets_the_same_icon_every_time() {
    let first = acquire_icon("Z:\\gone\\tool.exe", false, &nothing());
    let second = acquire_icon("Z:\\gone\\tool.exe", false, &nothing());
    assert_eq!(first, IconResult::SemanticTag("exe".to_string()));
    assert_eq!(first, second);
}

#[test]
fn stepwise_search_agrees_with_the_whole() {
    let outcomes = TierOutcomes {
        favicon: None,
        native_bitmap: None,
        archive_resources: some("archive"),
        shell_query: some("shell"),
    };
    let mut step = start_acquisition("a.exe", false);
    let mut asked = Vec::new();
    let icon = loop {
        match step {
            IconStep::Finished(icon) => break icon,
            IconStep::Attempt(tier) => {
                asked.push(tier);
                let outcome = match tier {
                    IconTier::Favicon => outcomes.favicon.clone(),
                    IconTier::NativeBitmap => outcomes.native_bitmap.clone(),
                    IconTier::ArchiveResources => outcomes.archive_resources.clone(),
                    IconTier::ShellQuery => outcomes.shell_query.clone(),
                    IconTier::SemanticTag => None,
                };
                step = continue_acquisition("a.exe", tier, outcome);
            }
        }
    };
    assert_eq!(asked, vec![IconTier::NativeBitmap, IconTier::ArchiveResources]);
    assert_eq!(icon, acquire_icon("a.exe", false, &outcomes));
    assert_eq!(icon, IconResult::DataUri("archive".to_string()));
}

#[test]
fn fallback_of_a_file() {
    assert_eq!(fallback_icon("report.PDF"), IconResult::SemanticTag("pdf".to_string()));
    assert_eq!(fallback_icon("report"), IconResult::Empty);
}

#[test]
fn a_web_address_has_no_tag() {
    assert_eq!(extract_file_icon("https://example.com/index.html"), None);
    assert_eq!(extract_file_icon("http://example.com/setup.exe"), None);
    assert_eq!(extract_file_icon("https://example.com"), None);
    assert_eq!(extract_file_icon("C:\\sites\\index.html"), Some("web".to_string()));
    assert_eq!(extract_file_icon("HTTPS://example.com/index.html"), Some("web".to_string()));
}

#[test]
fn the_extension_decides_where_the_search_begins() {
    assert_eq!(start_with_extension("exe", false), IconStep::Attempt(IconTier::NativeBitmap));
    assert_eq!(start_with_extension("exe", true), IconStep::Attempt(IconTier::Favicon));
    assert_eq!(start_with_extension("html", true), IconStep::Attempt(IconTier::Favicon));
    assert_eq!(
        start_with_extension("txt", false),
        IconStep::Finished(IconResult::SemanticTag("text".to_string()))
    );
    assert_eq!(start_with_extension("EXE", false), IconStep::Finished(IconResult::Empty));
    assert_eq!(start_with_extension("", false), IconStep::Finished(IconResult::Empty));
    assert!(is_executable_ext("exe"));
    assert!(!is_executable_ext("Exe"));
    assert!(!is_executable_ext("dll"));
}

#[test]
fn the_extension_decides_the_last_resort() {
    assert_eq!(
        continue_with_extension("exe", IconTier::ShellQuery, None),
        IconStep::Finished(IconResult::SemanticTag("exe".to_string()))
    );
    assert_eq!(
        continue_with_extension("pdf", IconTier::ShellQuery, None),
        IconStep::Finished(IconResult::SemanticTag("pdf".to_string()))
    );
    assert_eq!(
        continue_with_extension("html", IconTier::Favicon, None),
        IconStep::Finished(IconResult::Empty)
    );
    assert_eq!(
        continue_with_extension("exe", IconTier::NativeBitmap, None),
        IconStep::Attempt(IconTier::ArchiveResources)
    );
    assert_eq!(fallback_for_extension("mkv"), IconResult::SemanticTag("video".to_string()));
    assert_eq!(fallback_for_extension("nope"), IconResult::Empty);
    let mut outcomes = nothing();
    outcomes.shell_query = some("shell");
    assert_eq!(
        acquire_with_extension("exe", false, &outcomes),
        IconResult::DataUri("shell".to_string())
    );
    assert_eq!(
        acquire_with_extension("txt", false, &outcomes),
        IconResult::SemanticTag("text".to_string())
    );
    assert_eq!(acquire_with_extension("html", true, &outcomes), IconResult::Empty);
}
