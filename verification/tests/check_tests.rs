use domain_checker::check::DomainCheck;
use domain_checker::check::Verdict;

#[test]
fn http_success_short_circuits() {
    let mut check = DomainCheck::new(String::from("example.org"));
    assert_eq!(check.next_url().as_deref(), Some("http://example.org"));
    check.report(Some(200));
    assert_eq!(check.next_url(), None);
    match check.into_verdict() {
        Some(Verdict::Live { url, status }) => {
            assert_eq!(url.as_str(), "http://example.org");
            assert_eq!(status, 200);
        }
        other => panic!("expected a live verdict, got {:?}", other.is_some()),
    }
}

#[test]
fn https_fallback_after_http_failure() {
    let mut check = DomainCheck::new(String::from("example.com"));
    assert_eq!(check.next_url().as_deref(), Some("http://example.com"));
    check.report(Some(500));
    assert_eq!(check.next_url().as_deref(), Some("https://example.com"));
    check.report(Some(204));
    assert_eq!(check.next_url(), None);
    match check.into_verdict() {
        Some(Verdict::Live { url, status }) => {
            assert_eq!(url.as_str(), "https://example.com");
            assert_eq!(status, 204);
        }
        _ => panic!("expected a live verdict under the HTTPS URL"),
    }
}

#[test]
fn https_fallback_after_http_timeout() {
    let mut check = DomainCheck::new(String::from("example.com"));
    check.report(None);
    assert_eq!(check.next_url().as_deref(), Some("https://example.com"));
    check.report(Some(200));
    match check.into_verdict() {
        Some(Verdict::Live { url, status }) => {
            assert_eq!(url.as_str(), "https://example.com");
            assert_eq!(status, 200);
        }
        _ => panic!("expected a live verdict under the HTTPS URL"),
    }
}

#[test]
fn both_failures_yield_dead() {
    let mut check = DomainCheck::new(String::from("bad..domain"));
    check.report(None);
    check.report(Some(404));
    assert_eq!(check.next_url(), None);
    match check.into_verdict() {
        Some(Verdict::Dead { domain }) => assert_eq!(domain.as_str(), "bad..domain"),
        _ => panic!("expected a dead verdict"),
    }
}

#[test]
fn undecided_check_has_no_verdict() {
    let check = DomainCheck::new(String::from("example.com"));
    assert_eq!(check.domain().as_str(), "example.com");
    assert!(check.into_verdict().is_none());
}

#[test]
fn non_success_statuses_are_failures() {
    for code in [100u16, 199, 300, 301, 404, 500, 599] {
        let mut check = DomainCheck::new(String::from("example.com"));
        check.report(Some(code));
        check.report(Some(code));
        match check.into_verdict() {
            Some(Verdict::Dead { domain }) => assert_eq!(domain.as_str(), "example.com"),
            _ => panic!("status {} must not count as success", code),
        }
    }
}

#[test]
fn every_two_hundred_status_is_success() {
    for code in [200u16, 201, 204, 226, 299] {
        let mut check = DomainCheck::new(String::from("example.com"));
        check.report(Some(code));
        match check.into_verdict() {
            Some(Verdict::Live { url, status }) => {
                assert_eq!(url.as_str(), "http://example.com");
                assert_eq!(status, code);
            }
            _ => panic!("status {} must count as success", code),
        }
    }
}
