use domain_checker::text::extract_domain;
use domain_checker::text::has_prefix;
use domain_checker::text::http_url;
use domain_checker::text::https_url;
use domain_checker::text::prepare_line;
use domain_checker::text::trim;

#[test]
fn trim_removes_surrounding_whitespace() {
    assert_eq!(trim("  example.com \t"), "example.com");
    assert_eq!(trim("example.com"), "example.com");
    assert_eq!(trim("\r\n"), "");
    assert_eq!(trim(""), "");
    assert_eq!(trim(" inner space kept "), "inner space kept");
}

#[test]
fn trim_handles_unicode_whitespace() {
    assert_eq!(trim("\u{2003}example.com\u{00a0}"), "example.com");
    assert_eq!(trim("\u{3000}\u{2028}"), "");
}

#[test]
fn prepare_line_trims_and_skips_blank() {
    assert_eq!(prepare_line(" example.com "), Some(String::from("example.com")));
    assert_eq!(prepare_line("example.org"), Some(String::from("example.org")));
    assert_eq!(prepare_line(""), None);
    assert_eq!(prepare_line("   \t  "), None);
}

#[test]
fn candidate_urls_carry_the_scheme() {
    assert_eq!(http_url("example.com").as_str(), "http://example.com");
    assert_eq!(https_url("example.com").as_str(), "https://example.com");
}

#[test]
fn has_prefix_checks_leading_text() {
    assert!(has_prefix("http://example.com", "http://"));
    assert!(!has_prefix("https://example.com", "http://"));
    assert!(!has_prefix("http:/", "http://"));
    assert!(has_prefix("anything", ""));
}

#[test]
fn extract_domain_strips_scheme() {
    assert_eq!(extract_domain("http://example.com").as_str(), "example.com");
    assert_eq!(extract_domain("https://example.com").as_str(), "example.com");
}

#[test]
fn extract_domain_drops_path_and_query() {
    assert_eq!(extract_domain("http://example.com/some/path").as_str(), "example.com");
    assert_eq!(extract_domain("https://example.com/a?q=1").as_str(), "example.com");
}

#[test]
fn extract_domain_falls_back_without_scheme() {
    assert_eq!(extract_domain("example.com").as_str(), "example.com");
    assert_eq!(extract_domain("example.com/path").as_str(), "example.com");
    assert_eq!(extract_domain("ftp://example.com").as_str(), "ftp:");
}
