use asterix::derive_title;
use asterix::generate_preview;
use asterix::parse_user_url;
use asterix::text::starts_with;
use asterix::text::trim_whitespace;
use asterix::PageResponse;
use asterix::UrlError;

fn page(url: &str, mime_type: Option<&str>, body: &str) -> PageResponse {
    PageResponse {
        url: url.to_string(),
        status: 200,
        mime_type: mime_type.map(|m| m.to_string()),
        title: None,
        body: body.to_string(),
        received_at: 0,
    }
}

#[test]
fn html_title_is_trimmed() {
    let p = page(
        "https://example.test/",
        Some("text/html"),
        "<html><head><title>  Example  </title></head></html>",
    );
    assert_eq!(derive_title(&p), Some("Example".to_string()));
}

#[test]
fn non_html_mime_titles_with_url() {
    let p = page("https://example.test/pic.png", Some("image/png"), "not html");
    assert_eq!(derive_title(&p), Some("https://example.test/pic.png".to_string()));
}

#[test]
fn html_mime_with_charset_still_parses_body() {
    let p = page(
        "https://example.test/",
        Some("text/html; charset=utf-8"),
        "<html><head><title>Hi</title></head></html>",
    );
    assert_eq!(derive_title(&p), Some("Hi".to_string()));
}

#[test]
fn missing_mime_parses_body() {
    let p = page("https://example.test/", None, "<title>Hi</title>");
    assert_eq!(derive_title(&p), Some("Hi".to_string()));
}

#[test]
fn body_without_title_element_derives_none() {
    let p = page("https://example.test/", Some("text/html"), "<html></html>");
    assert_eq!(derive_title(&p), None);
}

#[test]
fn whitespace_only_title_derives_none() {
    let p = page(
        "https://example.test/",
        Some("text/html"),
        "<html><head><title>   </title></head></html>",
    );
    assert_eq!(derive_title(&p), None);
}

#[test]
fn trim_removes_leading_and_trailing_whitespace() {
    assert_eq!(trim_whitespace("\t  x y \n"), "x y");
    assert_eq!(trim_whitespace("   "), "");
    assert_eq!(trim_whitespace(""), "");
    assert_eq!(trim_whitespace("plain"), "plain");
}

#[test]
fn starts_with_checks_prefix() {
    assert!(starts_with("text/html; charset=utf-8", "text/html"));
    assert!(!starts_with("image/png", "text/html"));
    assert!(!starts_with("text", "text/html"));
    assert!(starts_with("anything", ""));
}

#[test]
fn short_body_previews_unchanged() {
    assert_eq!(generate_preview("hello"), "hello");
    assert_eq!(generate_preview(""), "");
}

#[test]
fn body_of_exactly_the_limit_previews_unchanged() {
    let body = "a".repeat(2048);
    assert_eq!(generate_preview(&body), body);
}

#[test]
fn long_body_is_truncated_with_ellipsis() {
    let body = "a".repeat(3000);
    let preview = generate_preview(&body);
    assert_eq!(preview.chars().count(), 2049);
    assert!(preview.ends_with('\u{2026}'));
    assert!(preview.starts_with(&"a".repeat(2048)));
}

#[test]
fn multibyte_body_over_the_byte_limit_keeps_all_chars() {
    let body = "\u{e9}".repeat(1500);
    let preview = generate_preview(&body);
    assert_eq!(preview.chars().count(), 1501);
    assert!(preview.ends_with('\u{2026}'));
}

#[test]
fn parse_url_trims_and_normalizes() {
    assert_eq!(
        parse_user_url("  https://example.com  "),
        Ok("https://example.com/".to_string())
    );
}

#[test]
fn parse_url_prepends_https_scheme() {
    assert_eq!(parse_user_url("example.com"), Ok("https://example.com/".to_string()));
}

#[test]
fn parse_url_rejects_empty_input() {
    assert_eq!(parse_user_url(""), Err(UrlError::Empty));
    assert_eq!(parse_user_url("   \t"), Err(UrlError::Empty));
}

#[test]
fn parse_url_rejects_unparseable_input() {
    assert_eq!(parse_user_url("exa mple"), Err(UrlError::Invalid));
}
