use wpp_desktop::links::{
    external_open_target, extract_external_open_target, find_pair_value,
    is_internal_whatsapp_url, navigation_action, new_window_action, should_open_in_browser,
    LinkAction,
};
use wpp_desktop::text::{starts_with, str_equal};
use wpp_desktop::url_parts::UrlParts;

fn parts(scheme: &str, query: Option<&str>) -> UrlParts {
    UrlParts { scheme: scheme.to_string(), query: query.map(|q| q.to_string()) }
}

fn pair(k: &str, v: &str) -> (String, String) {
    (k.to_string(), v.to_string())
}

#[test]
fn prefix_and_equality_helpers() {
    assert!(starts_with("https://web.whatsapp.com/", "https://"));
    assert!(starts_with("abc", ""));
    assert!(!starts_with("ab", "abc"));
    assert!(!starts_with("tel:1", "tex"));
    assert!(starts_with("ação", "aç"));
    assert!(str_equal("target", "target"));
    assert!(!str_equal("target", "targets"));
    assert!(!str_equal("Target", "target"));
}

#[test]
fn whatsapp_addresses_are_internal() {
    assert!(is_internal_whatsapp_url("https://web.whatsapp.com"));
    assert!(is_internal_whatsapp_url("https://web.whatsapp.com/send?phone=1"));
    assert!(is_internal_whatsapp_url("https://business.web.whatsapp.com/"));
    assert!(!is_internal_whatsapp_url("http://web.whatsapp.com"));
    assert!(!is_internal_whatsapp_url("https://www.whatsapp.com"));
}

#[test]
fn external_schemes_open_in_browser() {
    assert!(should_open_in_browser("https://example.com"));
    assert!(should_open_in_browser("http://example.com/page"));
    assert!(should_open_in_browser("mailto:someone@example.com"));
    assert!(should_open_in_browser("tel:+5511999999999"));
    assert!(!should_open_in_browser("https://web.whatsapp.com/"));
    assert!(!should_open_in_browser("https://business.web.whatsapp.com/x"));
    assert!(!should_open_in_browser("about:blank"));
    assert!(!should_open_in_browser("blob:https://web.whatsapp.com/123"));
    assert!(!should_open_in_browser("file:///etc/hosts"));
    assert!(!should_open_in_browser("HTTPS://example.com"));
    assert!(!should_open_in_browser(""));
}

#[test]
fn first_matching_pair_wins() {
    let pairs = vec![pair("a", "1"), pair("target", "x"), pair("target", "y")];
    assert_eq!(find_pair_value(&pairs, "target"), Some("x".to_string()));
    assert_eq!(find_pair_value(&pairs, "b"), None);
    assert_eq!(find_pair_value(&Vec::new(), "target"), None);
}

#[test]
fn target_from_parts() {
    assert_eq!(
        external_open_target(&parts("wpp-external", Some("target=https%3A%2F%2Fexample.com"))),
        Some("https://example.com".to_string())
    );
    assert_eq!(external_open_target(&parts("wpp-external", None)), None);
    assert_eq!(external_open_target(&parts("wpp-external", Some("other=1"))), None);
    assert_eq!(external_open_target(&parts("https", Some("target=x"))), None);
    assert_eq!(
        external_open_target(&parts("wpp-external", Some("target=a+b&target=c"))),
        Some("a b".to_string())
    );
}

#[test]
fn external_open_requests_carry_their_target() {
    assert_eq!(
        extract_external_open_target(
            "wpp-external://open?target=https%3A%2F%2Fexample.com%2Fa%3Fb%3Dc"
        ),
        Some("https://example.com/a?b=c".to_string())
    );
    assert_eq!(
        extract_external_open_target("WPP-EXTERNAL://open?target=tel%3A123"),
        Some("tel:123".to_string())
    );
    assert_eq!(extract_external_open_target("wpp-external://open?foo=1"), None);
    assert_eq!(extract_external_open_target("wpp-external://open"), None);
    assert_eq!(extract_external_open_target("https://example.com/?target=x"), None);
    assert_eq!(extract_external_open_target("not a url"), None);
}

#[test]
fn navigation_decisions() {
    assert_eq!(navigation_action("https://web.whatsapp.com/"), LinkAction::StayInApp);
    assert_eq!(
        navigation_action("https://example.com/x"),
        LinkAction::OpenExternalUrl("https://example.com/x".to_string())
    );
    assert_eq!(
        navigation_action("wpp-external://open?target=mailto%3Aa%40b.c"),
        LinkAction::OpenRequestedTarget("mailto:a@b.c".to_string())
    );
    assert_eq!(navigation_action("wpp-external://open?x=1"), LinkAction::StayInApp);
    assert_eq!(navigation_action("about:blank"), LinkAction::StayInApp);
    assert!(navigation_action("https://business.web.whatsapp.com/").allows_navigation());
    assert!(!navigation_action("tel:123").allows_navigation());
}

#[test]
fn new_window_decisions() {
    assert_eq!(new_window_action("https://web.whatsapp.com/x"), LinkAction::StayInApp);
    assert_eq!(
        new_window_action("mailto:x@y.z"),
        LinkAction::OpenExternalUrl("mailto:x@y.z".to_string())
    );
    assert_eq!(new_window_action("blob:https://web.whatsapp.com/1"), LinkAction::StayInApp);
}

#[test]
fn handlers_agree_on_ordinary_links() {
    for url in [
        "https://example.com",
        "https://web.whatsapp.com/",
        "tel:1",
        "about:blank",
        "ftp://example.com",
    ] {
        assert_eq!(navigation_action(url), new_window_action(url));
    }
}

#[test]
fn internal_links_never_leave_the_app() {
    for url in ["https://web.whatsapp.com/", "https://business.web.whatsapp.com/a"] {
        assert_eq!(new_window_action(url), LinkAction::StayInApp);
        assert_eq!(navigation_action(url), LinkAction::StayInApp);
    }
}
