use desktop_oauth::lifecycle::{callback_url, ServerSlot, StartPlan, StartupError};
use desktop_oauth::text::{push_decimal, starts_with, text_eq};

#[test]
fn callback_url_has_port() {
    assert_eq!(callback_url(8080), "http://127.0.0.1:8080/oauth/callback");
    assert_eq!(callback_url(0), "http://127.0.0.1:0/oauth/callback");
    assert_eq!(callback_url(65535), "http://127.0.0.1:65535/oauth/callback");
    assert_eq!(callback_url(7), "http://127.0.0.1:7/oauth/callback");
}

#[test]
fn push_decimal_appends_digits() {
    let mut s = String::from("n=");
    push_decimal(&mut s, 1029);
    assert_eq!(s, "n=1029");
}

#[test]
fn text_helpers() {
    assert!(text_eq("GET", "GET"));
    assert!(!text_eq("GET", "GETS"));
    assert!(!text_eq("GET", "PUT"));
    assert!(starts_with("/oauth/callback?x", "/oauth/callback"));
    assert!(starts_with("abc", ""));
    assert!(!starts_with("/oauth", "/oauth/callback"));
    assert!(!starts_with("/other/path", "/oauth/callback"));
}

#[test]
fn empty_slot_asks_for_bind() {
    let slot = ServerSlot::new();
    assert!(!slot.is_ready());
    assert_eq!(slot.port(), None);
    assert!(matches!(slot.plan(), StartPlan::Bind));
}

#[test]
fn failed_bind_leaves_slot_retriable() {
    let mut slot = ServerSlot::new();
    assert_eq!(slot.record_bind(None), Err(StartupError::BindFailed));
    assert!(!slot.is_ready());
    assert!(matches!(slot.plan(), StartPlan::Bind));
    assert_eq!(slot.record_bind(Some(5000)), Ok("http://127.0.0.1:5000/oauth/callback".to_string()));
    assert_eq!(slot.port(), Some(5000));
}

#[test]
fn repeated_requests_reuse_the_listener() {
    let mut slot = ServerSlot::new();
    let first = slot.record_bind(Some(43123)).unwrap();
    for _ in 0..5 {
        match slot.plan() {
            StartPlan::Reuse(url) => assert_eq!(url, first),
            StartPlan::Bind => panic!("bound twice"),
        }
    }
    assert_eq!(slot.port(), Some(43123));
}
