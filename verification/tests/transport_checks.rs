use sdp_engine::misc::{ResponseMethod, ResponseStatus};
use sdp_engine::transport::{contains_sub, detect_ban, ends_with, starts_with, BanKind};

#[test]
fn string_shape_checks() {
    assert!(starts_with("https://beta.paywb.com/x", "https://beta.paywb.com"));
    assert!(!starts_with("https://example.com", "https://beta.paywb.com"));
    assert!(starts_with("abc", ""));
    assert!(ends_with("/lk/payment/fail", "payment/fail"));
    assert!(!ends_with("/lk/payment/ok", "payment/fail"));
    assert!(ends_with("abc", ""));
    assert!(contains_sub("/lk/order?orderId=9", "orderId"));
    assert!(!contains_sub("/lk/basket", "orderId"));
}

#[test]
fn variti_server_header_is_a_ban() {
    let server = "Variti/1.2".to_string();
    let body = "<html>challenge</html>".to_string();
    assert_eq!(
        detect_ban(ResponseMethod::GET, 200, Some(&server), &body),
        Some(BanKind::Variti)
    );
}

#[test]
fn ddos_guard_server_header_is_a_ban() {
    let server = "ddos-guard".to_string();
    let body = "x".to_string();
    assert_eq!(
        detect_ban(ResponseMethod::POST, 403, Some(&server), &body),
        Some(BanKind::DdosGuard)
    );
}

#[test]
fn doctored_empty_body_on_get_is_a_ban() {
    let body = String::new();
    assert_eq!(
        detect_ban(ResponseMethod::GET, 200, None, &body),
        Some(BanKind::DdosGuard)
    );
    let server = "nginx".to_string();
    assert_eq!(
        detect_ban(ResponseMethod::GET, 200, Some(&server), &body),
        Some(BanKind::DdosGuard)
    );
}

#[test]
fn ordinary_replies_are_not_bans() {
    let server = "nginx".to_string();
    let body = "{\"resultState\":0}".to_string();
    assert_eq!(detect_ban(ResponseMethod::GET, 200, Some(&server), &body), None);
    // an empty body is only suspicious on a successful GET
    let empty = String::new();
    assert_eq!(detect_ban(ResponseMethod::POST, 200, Some(&server), &empty), None);
    assert_eq!(detect_ban(ResponseMethod::GET, 204, Some(&server), &empty), None);
}

#[test]
fn network_failures_format_with_their_tier() {
    assert_eq!(ResponseStatus::Timeout.to_string("A"), "Timeout (A)");
    assert_eq!(
        ResponseStatus::ConnectionError.to_string("C"),
        "Connection Error (C)"
    );
}

#[test]
fn ban_kinds_have_names() {
    assert_eq!(BanKind::Variti.name(), "Variti");
    assert_eq!(BanKind::DdosGuard.name(), "DDOS-Guard");
}
