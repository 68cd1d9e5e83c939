use lora_launcher::favicon::{
    after_icon, after_page, begin_fetch, find_favicon_href, find_ignoring_case,
    href_in_lowered_line, is_success_status, resolve_reference, value_in_quotes, FaviconError,
    Reply, DEFAULT_ICON_PATH, USER_AGENT,
};
use lora_launcher::text::{chars_of, string_of};
use lora_launcher::icons::{continue_acquisition, IconResult, IconStep, IconTier};

fn some(s: &str) -> Option<String> {
    Some(s.to_string())
}

fn page(body: &str) -> Reply<String> {
    Reply::Response { status: 200, content: Some(body.to_string()) }
}

#[test]
fn constants_of_the_fetch() {
    assert_eq!(USER_AGENT, "lora-favicon-fetcher/1.0");
    assert_eq!(DEFAULT_ICON_PATH, "/favicon.ico");
}

#[test]
fn page_address_must_be_absolute() {
    assert_eq!(begin_fetch("https://example.com/index.html"), Ok(()));
    assert_eq!(begin_fetch("example.com"), Err(FaviconError::InvalidUrl));
    assert_eq!(begin_fetch(""), Err(FaviconError::InvalidUrl));
    assert_eq!(begin_fetch("/relative/path"), Err(FaviconError::InvalidUrl));
}

#[test]
fn success_statuses() {
    assert!(is_success_status(200));
    assert!(is_success_status(204));
    assert!(is_success_status(299));
    assert!(!is_success_status(199));
    assert!(!is_success_status(300));
    assert!(!is_success_status(404));
}

#[test]
fn icon_link_in_double_quotes() {
    let body = "<html>\n<head>\n<link rel=\"icon\" href=\"/static/icon.png\">\n</head>";
    assert_eq!(find_favicon_href(body), some("/static/icon.png"));
}

#[test]
fn icon_link_in_single_quotes() {
    let body = "<link rel='icon' href='img/fav.ico'>";
    assert_eq!(find_favicon_href(body), some("img/fav.ico"));
}

#[test]
fn shortcut_icon_link() {
    let body = "<link rel=\"shortcut icon\" type=\"image/x-icon\" href=\"https://cdn.example.com/f.ico\">";
    assert_eq!(find_favicon_href(body), some("https://cdn.example.com/f.ico"));
    let body = "<link href=\"https://cdn.example.com/f.ico\" rel=\"shortcut icon\">";
    assert_eq!(find_favicon_href(body), some("https://cdn.example.com/f.ico"));
}

#[test]
fn icon_link_in_any_case() {
    let body = "<LINK REL=\"ICON\" HREF=\"/Fav.ICO\">";
    assert_eq!(find_favicon_href(body), some("/Fav.ICO"));
}

#[test]
fn the_quote_that_comes_first_after_href_holds_the_address() {
    let body = "<link rel='icon' href='a.ico' title=\"x\">";
    assert_eq!(find_favicon_href(body), some("a.ico"));
    let body = "<link rel=\"icon\" href='/a.ico' type=\"image/x-icon\">";
    assert_eq!(find_favicon_href(body), some("/a.ico"));
    assert_eq!(
        after_page("https://example.com/", &page(body)),
        Ok("https://example.com/a.ico".to_string())
    );
    let body = "<link rel=\"icon\" href=\"it's.ico\">";
    assert_eq!(find_favicon_href(body), some("it's.ico"));
    let body = "<link rel=\"icon\" href='say \"hi\".ico'>";
    assert_eq!(find_favicon_href(body), some("say \"hi\".ico"));
}

#[test]
fn the_address_is_cut_from_the_line_as_it_stands() {
    let body = "<link title=\"\u{0130}\u{0130}\u{0130}\" rel=\"icon\" HREF=\"/Icons/\u{0130}.ICO\">";
    assert_eq!(find_favicon_href(body), some("/Icons/\u{0130}.ICO"));
}

#[test]
fn quoted_values() {
    let value = |s: &str| value_in_quotes(&chars_of(s)).map(|v| string_of(&v));
    assert_eq!(value("\"a\" 'b'"), some("a"));
    assert_eq!(value("'a' \"b\""), some("a"));
    assert_eq!(value("x='' y"), some(""));
    assert_eq!(value("'unclosed \"x\""), None);
    assert_eq!(value("no quotes"), None);
    assert_eq!(value(""), None);
}

#[test]
fn the_lowered_line_tells_whether_an_icon_is_declared() {
    let line = "<LINK REL=\"ICON\" HREF=\"/Fav.ICO\">";
    assert_eq!(href_in_lowered_line(line, "<link rel=\"icon\" href=\"/fav.ico\">"), some("/Fav.ICO"));
    assert_eq!(href_in_lowered_line(line, line), None);
    assert_eq!(href_in_lowered_line(line, "rel='icon'"), some("/Fav.ICO"));
    assert_eq!(href_in_lowered_line("no address here", "rel=\"shortcut icon\""), None);
    assert_eq!(href_in_lowered_line("hRef='x'", "rel=\"icon\""), some("x"));
    assert_eq!(href_in_lowered_line("href ='x'", "rel=\"icon\""), None);
}

#[test]
fn finding_in_any_case() {
    let find = |s: &str, from: usize| find_ignoring_case(&chars_of(s), &chars_of("href="), from);
    assert_eq!(find("a HREF= b href=", 0), Some(2));
    assert_eq!(find("a HREF= b href=", 3), Some(10));
    assert_eq!(find("a HREF= b href=", 11), None);
    assert_eq!(find("hre=", 0), None);
    assert_eq!(find("HREF\u{FF1D}", 0), None);
    assert_eq!(find("\u{0048}ref=", 0), Some(0));
    assert_eq!(find("(ref=", 0), None);
}

#[test]
fn lines_without_a_quoted_address_are_passed_over() {
    let body = "<link rel=\"icon\">\n<link rel=\"icon\" href=unquoted>\n<link rel=\"icon\" href=\"b.ico\">";
    assert_eq!(find_favicon_href(body), some("b.ico"));
    let body = "<link rel=\"icon\" href=\"unterminated>\n<link rel=\"icon\" href=\"c.ico\">";
    assert_eq!(find_favicon_href(body), some("c.ico"));
}

#[test]
fn pages_without_icon_link() {
    assert_eq!(find_favicon_href(""), None);
    assert_eq!(find_favicon_href("<link rel=\"stylesheet\" href=\"a.css\">"), None);
    assert_eq!(find_favicon_href("<link rel=\"apple-touch-icon\" href=\"a.png\">"), None);
}

#[test]
fn first_icon_link_wins() {
    let body = "<link rel=\"icon\" href=\"first.ico\">\n<link rel=\"icon\" href=\"second.ico\">";
    assert_eq!(find_favicon_href(body), some("first.ico"));
}

#[test]
fn references_are_resolved_against_the_page() {
    let page = "https://example.com/a/b.html";
    assert_eq!(resolve_reference(page, "/favicon.ico"), some("https://example.com/favicon.ico"));
    assert_eq!(resolve_reference(page, "c.png"), some("https://example.com/a/c.png"));
    assert_eq!(resolve_reference(page, "//cdn.example.com/i.ico"), some("https://cdn.example.com/i.ico"));
    assert_eq!(resolve_reference(page, "http://eve.com/b"), some("http://eve.com/b"));
    assert_eq!(resolve_reference(page, "https://EXAMPLE.org"), some("https://example.org/"));
}

#[test]
fn references_against_what_is_no_address() {
    assert_eq!(resolve_reference("not an address", "/favicon.ico"), None);
    assert_eq!(resolve_reference("not an address", "https://a.b/c"), some("https://a.b/c"));
}

#[test]
fn page_with_icon_link_names_the_icon_address() {
    let body = "<head><link rel=\"icon\" href=\"/static/icon.png\"></head>";
    assert_eq!(
        after_page("https://example.com/docs/index.html", &page(body)),
        Ok("https://example.com/static/icon.png".to_string())
    );
}

#[test]
fn page_without_icon_link_falls_back_to_the_conventional_place() {
    assert_eq!(
        after_page("https://example.com/docs/index.html?q=1", &page("<html></html>")),
        Ok("https://example.com/favicon.ico".to_string())
    );
}

#[test]
fn page_request_failures() {
    assert_eq!(after_page("https://example.com", &Reply::Failed), Err(FaviconError::RequestFailed));
    assert_eq!(
        after_page("https://example.com", &Reply::Response { status: 404, content: None }),
        Err(FaviconError::BadStatus(404))
    );
    assert_eq!(
        after_page(
            "https://example.com",
            &Reply::Response { status: 500, content: Some("<link rel=\"icon\" href=\"a\">".to_string()) }
        ),
        Err(FaviconError::BadStatus(500))
    );
    assert_eq!(
        after_page("https://example.com", &Reply::Response { status: 200, content: None }),
        Err(FaviconError::UnreadableBody)
    );
}

#[test]
fn icon_reply_becomes_a_data_uri() {
    assert_eq!(
        after_icon(&Reply::Response { status: 200, content: Some(b"hello".to_vec()) }),
        Ok("data:image/x-icon;base64,aGVsbG8=".to_string())
    );
    assert_eq!(
        after_icon(&Reply::Response { status: 200, content: Some(Vec::new()) }),
        Ok("data:image/x-icon;base64,".to_string())
    );
}

#[test]
fn icon_request_failures() {
    assert_eq!(after_icon(&Reply::Failed), Err(FaviconError::NoIcon));
    assert_eq!(
        after_icon(&Reply::Response { status: 404, content: Some(b"nope".to_vec()) }),
        Err(FaviconError::NoIcon)
    );
    assert_eq!(
        after_icon(&Reply::Response { status: 200, content: None }),
        Err(FaviconError::NoIcon)
    );
}

#[test]
fn site_answering_404_twice_yields_no_icon() {
    let url = "https://example.com/missing";
    assert_eq!(begin_fetch(url), Ok(()));
    let first = after_page(url, &Reply::Response { status: 404, content: Some(String::new()) });
    assert_eq!(first, Err(FaviconError::BadStatus(404)));
    let second = after_icon(&Reply::Response { status: 404, content: Some(Vec::new()) });
    assert_eq!(second, Err(FaviconError::NoIcon));
    assert_eq!(
        continue_acquisition(url, IconTier::Favicon, first.ok()),
        IconStep::Finished(IconResult::Empty)
    );
}

#[test]
fn favicon_messages() {
    assert_eq!(FaviconError::InvalidUrl.message(), "无效 URL");
    assert_eq!(FaviconError::RequestFailed.message(), "请求页面失败");
    assert_eq!(FaviconError::BadStatus(404).message(), "页面返回错误状态: 404");
    assert_eq!(FaviconError::BadStatus(0).message(), "页面返回错误状态: 0");
    assert_eq!(FaviconError::UnreadableBody.message(), "读取页面内容失败");
    assert_eq!(FaviconError::NoIcon.message(), "未能获取 favicon");
}
