//! The icon of a web site: where a page says its icon is, and what each
//! reply of the site leads to.
//!
//! Nothing here touches the network. The caller sends the requests that
//! these functions name, with the user agent given here, and hands back the
//! replies.

use vstd::prelude::*;
use crate::encoding::{data_uri_of, site_icon_data_uri, ICON_PREFIX};
use crate::text::{
    chars_of, contains, decimal_of, find_in, lines_of, lowercase_of, opt_view, push_decimal,
    slice_of, split_lines, string_of, to_lowercase, views,
};

verus! {

/// The absolute address that a text denotes, in its normal form, where the
/// text is an absolute address.
pub uninterp spec fn url_parsed(input: Seq<char>) -> Option<Seq<char>>;

/// The address that `reference` denotes when it is read relative to the
/// address `base`, where `base` is an absolute address and the reference can
/// be resolved against it.
pub uninterp spec fn url_joined(base: Seq<char>, reference: Seq<char>) -> Option<Seq<char>>;

/// The user agent under which the requests are sent.
pub const USER_AGENT: &'static str = "lora-favicon-fetcher/1.0";

/// Where the icon of a site is by convention.
pub const DEFAULT_ICON_PATH: &'static str = "/favicon.ico";

/// The attribute that introduces the address of a link.
pub const HREF: &'static str = "href=";

/// Why no site icon was obtained.
#[derive(Clone, Copy, Debug, PartialEq, Eq, Structural)]
pub enum FaviconError {
    /// The page address is no absolute address.
    InvalidUrl,
    /// The request for the page failed.
    RequestFailed,
    /// The page was answered with a status outside 200 to 299.
    BadStatus(u16),
    /// The text of the page could not be read.
    UnreadableBody,
    /// No icon was found at the place where it should be.
    NoIcon,
}

/// The reason in words.
pub open spec fn favicon_message_of(error: FaviconError) -> Seq<char> {
    match error {
        FaviconError::InvalidUrl => "无效 URL"@,
        FaviconError::RequestFailed => "请求页面失败"@,
        FaviconError::BadStatus(status) => "页面返回错误状态: "@ + decimal_of(status as nat),
        FaviconError::UnreadableBody => "读取页面内容失败"@,
        FaviconError::NoIcon => "未能获取 favicon"@,
    }
}

impl FaviconError {
    /// The reason in words.
    pub fn message(&self) -> (text: String)
        ensures
            text@ == favicon_message_of(*self),
    {
        match self {
            FaviconError::InvalidUrl => "无效 URL".to_owned(),
            FaviconError::RequestFailed => "请求页面失败".to_owned(),
            FaviconError::BadStatus(status) => {
                let mut text = "页面返回错误状态: ".to_owned();
                push_decimal(&mut text, *status as u128);
                text
            },
            FaviconError::UnreadableBody => "读取页面内容失败".to_owned(),
            FaviconError::NoIcon => "未能获取 favicon".to_owned(),
        }
    }
}

/// The reply to a request.
#[derive(Debug)]
pub enum Reply<T> {
    /// No reply came.
    Failed,
    /// A reply came, with this status and, where it could be read, this
    /// content.
    Response { status: u16, content: Option<T> },
}

/// Whether a status reports success.
pub open spec fn is_success(status: u16) -> bool {
    200 <= status <= 299
}

/// Whether a lowercase line declares an icon link.
pub open spec fn declares_icon(lower: Seq<char>) -> bool {
    contains(lower, "rel=\"icon\""@) || contains(lower, "rel='icon'"@) || contains(
        lower,
        "rel=\"shortcut icon\""@,
    )
}

/// Whether a character opens and closes a quotation.
pub open spec fn is_quote(c: char) -> bool {
    c == '"' || c == '\''
}

/// The position of the first quote character at or after `from`, or the
/// length of `s` when there is none.
pub open spec fn first_quote(s: Seq<char>, from: int) -> int
    decreases s.len() - from,
{
    if from < 0 || from >= s.len() {
        s.len() as int
    } else if is_quote(s[from]) {
        from
    } else {
        first_quote(s, from + 1)
    }
}

/// The position of the first `c` at or after `from`, or the length of `s`
/// when there is none.
pub open spec fn first_char(s: Seq<char>, c: char, from: int) -> int
    decreases s.len() - from,
{
    if from < 0 || from >= s.len() {
        s.len() as int
    } else if s[from] == c {
        from
    } else {
        first_char(s, c, from + 1)
    }
}

/// The quoted value in `s`: what stands between the first quote character
/// of `s`, single or double, and the next occurrence of that same
/// character. There is none when `s` holds no quote character, or when the
/// quotation is not closed.
pub open spec fn quoted_value(s: Seq<char>) -> Option<Seq<char>> {
    let open = first_quote(s, 0);
    if 0 <= open < s.len() {
        let close = first_char(s, s[open], open + 1);
        if open < close < s.len() {
            Some(s.subrange(open + 1, close))
        } else {
            None
        }
    } else {
        None
    }
}

/// Whether `c` is the lowercase letter `lower` in either case, or the same
/// character where `lower` is no letter of `a` to `z`.
pub open spec fn is_letter(c: char, lower: char) -> bool {
    c == lower || (0x61 <= lower as u32 <= 0x7a && c as u32 + 32 == lower as u32)
}

/// Whether the lowercase pattern `pat` stands in `s` at position `i`,
/// letters of `a` to `z` being read in either case.
pub open spec fn occurs_in_any_case(s: Seq<char>, pat: Seq<char>, i: int) -> bool {
    &&& 0 <= i
    &&& i + pat.len() <= s.len()
    &&& forall|k: int| 0 <= k < pat.len() ==> is_letter(#[trigger] s[i + k], pat[k])
}

/// The first position at or after `from` at which the lowercase pattern
/// stands in `s` in any case.
pub open spec fn find_in_any_case(s: Seq<char>, pat: Seq<char>, from: int) -> Option<int>
    decreases s.len() + 1 - from,
{
    if from < 0 || from + pat.len() > s.len() {
        None
    } else if occurs_in_any_case(s, pat, from) {
        Some(from)
    } else {
        find_in_any_case(s, pat, from + 1)
    }
}

/// The address of the icon link that a line declares, given the line in
/// lowercase. The lowercase line tells whether the line declares an icon
/// link at all. The address is taken from the line as it stands: it is the
/// quoted value that follows the first `href=`, written in any case.
pub open spec fn href_given(line: Seq<char>, lower: Seq<char>) -> Option<Seq<char>> {
    if !declares_icon(lower) {
        None
    } else {
        match find_in_any_case(line, HREF@, 0) {
            Some(at) => quoted_value(line.skip(at + HREF@.len())),
            None => None,
        }
    }
}

/// The address of the icon link that a line declares.
pub open spec fn href_in_line(line: Seq<char>) -> Option<Seq<char>> {
    href_given(line, lowercase_of(line))
}

/// The address given by the first line that declares an icon link with a
/// quoted address.
pub open spec fn href_in_lines(lines: Seq<Seq<char>>) -> Option<Seq<char>>
    decreases lines.len(),
{
    if lines.len() == 0 {
        None
    } else {
        match href_in_line(lines[0]) {
            Some(href) => Some(href),
            None => href_in_lines(lines.drop_first()),
        }
    }
}

/// The address of its icon that a page declares.
pub open spec fn favicon_href_of(body: Seq<char>) -> Option<Seq<char>> {
    href_in_lines(lines_of(body))
}

/// The place to ask for the icon: what the page declares, or the
/// conventional path.
pub open spec fn icon_reference_of(body: Seq<char>) -> Seq<char> {
    match favicon_href_of(body) {
        Some(href) => href,
        None => DEFAULT_ICON_PATH@,
    }
}

/// A reference resolved against the page: an absolute address stands for
/// itself, anything else is read relative to the page.
pub open spec fn resolved_against(page_url: Seq<char>, reference: Seq<char>) -> Option<Seq<char>> {
    match url_parsed(reference) {
        Some(absolute) => Some(absolute),
        None => url_joined(page_url, reference),
    }
}

/// What the reply to the page request leads to: the address of the icon to
/// ask for next, or the end of the attempt.
pub open spec fn after_page_of(page_url: Seq<char>, reply: Reply<String>) -> Result<
    Seq<char>,
    FaviconError,
> {
    match reply {
        Reply::Failed => Err(FaviconError::RequestFailed),
        Reply::Response { status, content } => if !is_success(status) {
            Err(FaviconError::BadStatus(status))
        } else {
            match content {
                None => Err(FaviconError::UnreadableBody),
                Some(body) => match resolved_against(page_url, icon_reference_of(body@)) {
                    Some(address) => Ok(address),
                    None => Err(FaviconError::NoIcon),
                },
            }
        },
    }
}

/// What the reply to the icon request leads to: the icon as a data URI, or
/// the end of the attempt.
pub open spec fn after_icon_of(reply: Reply<Vec<u8>>) -> Result<Seq<char>, FaviconError> {
    match reply {
        Reply::Failed => Err(FaviconError::NoIcon),
        Reply::Response { status, content } => if !is_success(status) {
            Err(FaviconError::NoIcon)
        } else {
            match content {
                None => Err(FaviconError::NoIcon),
                Some(bytes) => match data_uri_of(ICON_PREFIX@, bytes@) {
                    Some(uri) => Ok(uri),
                    None => Err(FaviconError::NoIcon),
                },
            }
        },
    }
}

/// The view of a result that carries a string.
pub open spec fn result_view<E>(r: Result<String, E>) -> Result<Seq<char>, E> {
    match r {
        Ok(s) => Ok(s@),
        Err(e) => Err(e),
    }
}

/// `find_in_any_case` returns the least position of a match, and none when
/// there is no match at or after `from`.
pub proof fn lemma_find_in_any_case(s: Seq<char>, pat: Seq<char>, from: int)
    requires
        0 <= from,
    ensures
        match find_in_any_case(s, pat, from) {
            Some(i) => from <= i && occurs_in_any_case(s, pat, i) && forall|j: int|
                from <= j < i ==> !occurs_in_any_case(s, pat, j),
            None => forall|j: int| from <= j ==> !occurs_in_any_case(s, pat, j),
        },
    decreases s.len() + 1 - from,
{
    if from + pat.len() > s.len() {
    } else if occurs_in_any_case(s, pat, from) {
    } else {
        lemma_find_in_any_case(s, pat, from + 1);
    }
}

/// Normal form of an absolute address.
///
/// Trusted: `url::Url::parse` followed by `Url::as_str` depends on the text
/// alone; the outcome is named `url_parsed`.
#[verifier::external_body]
fn parse_url(input: &str) -> (r: Option<String>)
    ensures
        opt_view(r) == url_parsed(input@),
{
    match url::Url::parse(input) {
        Ok(parsed) => Some(parsed.as_str().to_string()),
        Err(_) => None,
    }
}

/// A reference read relative to a base address.
///
/// Trusted: `url::Url::join`, called on the address that `url::Url::parse`
/// makes of `base`, and followed by `Url::as_str`, depends on the two texts
/// alone; the outcome is named `url_joined`.
#[verifier::external_body]
fn join_url(base: &str, reference: &str) -> (r: Option<String>)
    ensures
        opt_view(r) == url_joined(base@, reference@),
{
    match url::Url::parse(base) {
        Ok(parsed) => match parsed.join(reference) {
            Ok(joined) => Some(joined.as_str().to_string()),
            Err(_) => None,
        },
        Err(_) => None,
    }
}

/// Whether a status reports success.
pub fn is_success_status(status: u16) -> (r: bool)
    ensures
        r == is_success(status),
{
    200 <= status && status <= 299
}

/// The position of the first `c` at or after `from`.
fn position_of_char(s: &Vec<char>, c: char, from: usize) -> (at: usize)
    requires
        from <= s.len(),
    ensures
        at == first_char(s@, c, from as int),
        from <= at <= s.len(),
{
    let mut i: usize = from;
    while i < s.len() && s[i] != c
        invariant
            from <= i <= s.len(),
            first_char(s@, c, i as int) == first_char(s@, c, from as int),
        decreases s.len() - i,
    {
        i += 1;
    }
    i
}

/// The quoted value in a text: what stands between its first quote
/// character, single or double, and the next occurrence of that same
/// character.
pub fn value_in_quotes(s: &Vec<char>) -> (r: Option<Vec<char>>)
    ensures
        match r {
            Some(v) => quoted_value(s@) == Some(v@),
            None => quoted_value(s@) is None,
        },
{
    let mut open: usize = 0;
    while open < s.len() && !(s[open] == '"' || s[open] == '\'')
        invariant
            open <= s.len(),
            first_quote(s@, open as int) == first_quote(s@, 0),
        decreases s.len() - open,
    {
        open += 1;
    }
    if open >= s.len() {
        return None;
    }
    let close = position_of_char(s, s[open], open + 1);
    if close < s.len() {
        Some(slice_of(s, open + 1, close))
    } else {
        None
    }
}

/// Whether a text holds a literal.
fn holds(s: &Vec<char>, literal: &str) -> (r: bool)
    ensures
        r == contains(s@, literal@),
{
    let pat = chars_of(literal);
    find_in(s, &pat, 0).is_some()
}

/// Whether `c` is the lowercase letter `lower` in either case.
fn letter_matches(c: char, lower: char) -> (r: bool)
    ensures
        r == is_letter(c, lower),
{
    c == lower || (0x61 <= lower as u32 && lower as u32 <= 0x7a && c as u32 + 32 == lower as u32)
}

/// Whether the lowercase pattern stands in `s` at position `i` in any case.
fn matches_in_any_case(s: &Vec<char>, pat: &Vec<char>, i: usize) -> (r: bool)
    ensures
        r == occurs_in_any_case(s@, pat@, i as int),
{
    if pat.len() > s.len() || i > s.len() - pat.len() {
        return false;
    }
    let mut k: usize = 0;
    while k < pat.len()
        invariant
            i + pat.len() <= s.len(),
            k <= pat.len(),
            forall|j: int| 0 <= j < k ==> is_letter(#[trigger] s@[i + j], pat@[j]),
        decreases pat.len() - k,
    {
        if !letter_matches(s[i + k], pat[k]) {
            assert(!is_letter(s@[i + k], pat@[k as int]));
            return false;
        }
        k += 1;
    }
    true
}

/// The first position at or after `from` at which the lowercase pattern
/// stands in `s`, letters being read in either case.
pub fn find_ignoring_case(s: &Vec<char>, pat: &Vec<char>, from: usize) -> (r: Option<usize>)
    ensures
        match r {
            Some(i) => {
                &&& find_in_any_case(s@, pat@, from as int) == Some(i as int)
                &&& from <= i
                &&& occurs_in_any_case(s@, pat@, i as int)
                &&& forall|j: int| from <= j < i ==> !occurs_in_any_case(s@, pat@, j)
            },
            None => {
                &&& find_in_any_case(s@, pat@, from as int) is None
                &&& forall|j: int| from <= j ==> !occurs_in_any_case(s@, pat@, j)
            },
        },
{
    if pat.len() > s.len() {
        proof {
            lemma_find_in_any_case(s@, pat@, from as int);
        }
        return None;
    }
    let last: usize = s.len() - pat.len();
    let mut i: usize = from;
    while i <= last
        invariant
            last == s.len() - pat.len(),
            from <= i,
            find_in_any_case(s@, pat@, from as int) == find_in_any_case(s@, pat@, i as int),
        decreases last + 1 - i,
    {
        if matches_in_any_case(s, pat, i) {
            proof {
                lemma_find_in_any_case(s@, pat@, from as int);
            }
            return Some(i);
        }
        if i == last {
            assert(find_in_any_case(s@, pat@, i + 1) is None);
            proof {
                lemma_find_in_any_case(s@, pat@, from as int);
            }
            return None;
        }
        i += 1;
    }
    proof {
        lemma_find_in_any_case(s@, pat@, from as int);
    }
    None
}

/// The address of the icon link that a line declares, given the line in
/// lowercase.
fn href_of_line(line: &Vec<char>, lower: &Vec<char>) -> (r: Option<Vec<char>>)
    ensures
        match r {
            Some(v) => href_given(line@, lower@) == Some(v@),
            None => href_given(line@, lower@) is None,
        },
{
    if !(holds(lower, "rel=\"icon\"") || holds(lower, "rel='icon'") || holds(
        lower,
        "rel=\"shortcut icon\"",
    )) {
        return None;
    }
    let key = chars_of(HREF);
    match find_ignoring_case(line, &key, 0) {
        None => None,
        Some(at) => {
            let end: usize = line.len();
            let rest = slice_of(line, at + key.len(), end);
            assert(rest@ == line@.skip(at + HREF@.len()));
            value_in_quotes(&rest)
        },
    }
}

/// The address of the icon link that a line declares, given the same line
/// in lowercase: the quoted value after the first `href=` of the line, where
/// the lowercase line holds `rel="icon"`, `rel='icon'` or
/// `rel="shortcut icon"`.
pub fn href_in_lowered_line(line: &str, lower: &str) -> (href: Option<String>)
    ensures
        opt_view(href) == href_given(line@, lower@),
{
    let l = chars_of(line);
    let low = chars_of(lower);
    match href_of_line(&l, &low) {
        Some(value) => Some(string_of(&value)),
        None => None,
    }
}

/// The address of its icon that a page declares: the quoted `href` of the
/// first line that holds `rel="icon"`, `rel='icon'` or `rel="shortcut icon"`
/// in any case.
pub fn find_favicon_href(body: &str) -> (href: Option<String>)
    ensures
        opt_view(href) == favicon_href_of(body@),
{
    let text = chars_of(body);
    let lines = split_lines(&text);
    let mut i: usize = 0;
    assert(views(lines@).skip(0) == views(lines@));
    while i < lines.len()
        invariant
            i <= lines.len(),
            views(lines@) == lines_of(body@),
            href_in_lines(views(lines@).skip(i as int)) == href_in_lines(views(lines@)),
        decreases lines.len() - i,
    {
        let ghost rest = views(lines@).skip(i as int);
        assert(rest.len() > 0 && rest[0] == lines@[i as int]@);
        let text = string_of(&lines[i]);
        let lowered = to_lowercase(text.as_str());
        let lower = chars_of(lowered.as_str());
        match href_of_line(&lines[i], &lower) {
            Some(value) => {
                assert(href_in_lines(rest) == Some(value@));
                return Some(string_of(&value));
            },
            None => {},
        }
        assert(rest.drop_first() == views(lines@).skip(i + 1));
        i += 1;
    }
    None
}

/// Resolves a reference against the page it was found on.
pub fn resolve_reference(page_url: &str, reference: &str) -> (address: Option<String>)
    ensures
        opt_view(address) == resolved_against(page_url@, reference@),
{
    match parse_url(reference) {
        Some(absolute) => Some(absolute),
        None => join_url(page_url, reference),
    }
}

/// Begins the attempt: checks that the page address is an absolute address.
/// On success the page is to be requested at the address as given.
pub fn begin_fetch(page_url: &str) -> (r: Result<(), FaviconError>)
    ensures
        r == (if url_parsed(page_url@) is Some {
            Ok::<(), FaviconError>(())
        } else {
            Err(FaviconError::InvalidUrl)
        }),
{
    match parse_url(page_url) {
        Some(_) => Ok(()),
        None => Err(FaviconError::InvalidUrl),
    }
}

/// Takes the reply to the page request, and names the address at which the
/// icon is to be requested.
pub fn after_page(page_url: &str, reply: &Reply<String>) -> (r: Result<String, FaviconError>)
    ensures
        result_view(r) == after_page_of(page_url@, *reply),
{
    match reply {
        Reply::Failed => Err(FaviconError::RequestFailed),
        Reply::Response { status, content } => {
            if !is_success_status(*status) {
                return Err(FaviconError::BadStatus(*status));
            }
            match content {
                None => Err(FaviconError::UnreadableBody),
                Some(body) => {
                    let reference = match find_favicon_href(body.as_str()) {
                        Some(href) => href,
                        None => DEFAULT_ICON_PATH.to_owned(),
                    };
                    match resolve_reference(page_url, reference.as_str()) {
                        Some(address) => Ok(address),
                        None => Err(FaviconError::NoIcon),
                    }
                },
            }
        },
    }
}

/// Takes the reply to the icon request, and frames the icon as a data URI.
pub fn after_icon(reply: &Reply<Vec<u8>>) -> (r: Result<String, FaviconError>)
    ensures
        result_view(r) == after_icon_of(*reply),
{
    match reply {
        Reply::Failed => Err(FaviconError::NoIcon),
        Reply::Response { status, content } => {
            if !is_success_status(*status) {
                return Err(FaviconError::NoIcon);
            }
            match content {
                None => Err(FaviconError::NoIcon),
                Some(bytes) => match site_icon_data_uri(bytes) {
                    Some(uri) => Ok(uri),
                    None => Err(FaviconError::NoIcon),
                },
            }
        },
    }
}

/// A site that answers neither request with success yields no icon: an
/// error comes out, whatever the statuses and contents were.
pub proof fn lemma_refusals_yield_no_icon(
    page_url: Seq<char>,
    page: Reply<String>,
    icon: Reply<Vec<u8>>,
)
    requires
        page matches Reply::Response { status, .. } ==> !is_success(status),
        icon matches Reply::Response { status, .. } ==> !is_success(status),
    ensures
        after_page_of(page_url, page) is Err,
        after_icon_of(icon) is Err,
{
}

} // verus!
