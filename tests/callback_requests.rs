use desktop_oauth::callback::{
    decide_callback, extract_params, handle_callback, is_truthy_flag, CallbackOutcome, Page,
    Rejection, UrlParts, OAUTH_COMPLETE_EVENT,
};
use desktop_oauth::pages::{ERROR_HTML, HTML_CONTENT_TYPE, SUCCESS_HTML};

fn completed(outcome: CallbackOutcome) -> desktop_oauth::callback::OAuthResult {
    match outcome {
        CallbackOutcome::Completed(r) => r,
        CallbackOutcome::Rejected(e) => panic!("rejected: {:?}", e),
    }
}

fn rejection(outcome: &CallbackOutcome) -> Rejection {
    match outcome {
        CallbackOutcome::Completed(_) => panic!("unexpectedly completed"),
        CallbackOutcome::Rejected(e) => *e,
    }
}

fn pairs(items: &[(&str, &str)]) -> Vec<(String, String)> {
    items.iter().map(|(k, v)| (k.to_string(), v.to_string())).collect()
}

#[test]
fn valid_round_trip() {
    let outcome = handle_callback("GET", "/oauth/callback?token=abc&session_id=xyz");
    assert_eq!(outcome.status(), 200);
    assert_eq!(outcome.page(), Page::SignedIn);
    assert_eq!(outcome.page().content_type(), Some(HTML_CONTENT_TYPE));
    assert_eq!(outcome.page().body(), SUCCESS_HTML);
    let result = completed(outcome);
    assert_eq!(result.token, "abc");
    assert_eq!(result.session_id, "xyz");
    assert!(!result.is_new_user);
    assert_eq!(result.oauth_channel, None);
}

#[test]
fn event_name_is_fixed() {
    assert_eq!(OAUTH_COMPLETE_EVENT, "desktop://oauth-complete");
}

#[test]
fn oauth_channel_is_carried() {
    let outcome = handle_callback("GET", "/oauth/callback?token=t&session_id=s&oauth_channel=google");
    let result = completed(outcome);
    assert_eq!(result.oauth_channel, Some("google".to_string()));
}

#[test]
fn truthy_flag_values_set_new_user() {
    for v in ["1", "true", "yes"] {
        let target = format!("/oauth/callback?token=t&session_id=s&is_new_user={}", v);
        assert!(completed(handle_callback("GET", &target)).is_new_user, "{}", v);
    }
}

#[test]
fn other_flag_values_leave_new_user_false() {
    for v in ["false", "0", "TRUE", "Yes", ""] {
        let target = format!("/oauth/callback?token=t&session_id=s&is_new_user={}", v);
        assert!(!completed(handle_callback("GET", &target)).is_new_user, "{}", v);
    }
    assert!(!completed(handle_callback("GET", "/oauth/callback?token=t&session_id=s")).is_new_user);
}

#[test]
fn flag_last_occurrence_decides() {
    let outcome = handle_callback("GET", "/oauth/callback?is_new_user=1&token=t&session_id=s&is_new_user=0");
    assert!(!completed(outcome).is_new_user);
}

#[test]
fn is_truthy_flag_is_case_sensitive() {
    assert!(is_truthy_flag("true"));
    assert!(is_truthy_flag("1"));
    assert!(is_truthy_flag("yes"));
    assert!(!is_truthy_flag("True"));
    assert!(!is_truthy_flag("no"));
    assert!(!is_truthy_flag(""));
}

#[test]
fn missing_session_id_is_rejected() {
    let outcome = handle_callback("GET", "/oauth/callback?token=abc");
    assert_eq!(outcome.status(), 400);
    assert_eq!(outcome.page(), Page::Failure);
    assert_eq!(outcome.page().body(), ERROR_HTML);
    assert_eq!(outcome.page().content_type(), Some(HTML_CONTENT_TYPE));
    assert_eq!(rejection(&outcome), Rejection::MissingAuthPayload);
}

#[test]
fn missing_token_is_rejected() {
    let outcome = handle_callback("GET", "/oauth/callback?session_id=xyz");
    assert_eq!(rejection(&outcome), Rejection::MissingAuthPayload);
}

#[test]
fn post_is_rejected() {
    let outcome = handle_callback("POST", "/oauth/callback?token=abc&session_id=xyz");
    assert_eq!(outcome.status(), 405);
    assert_eq!(outcome.page(), Page::Empty);
    assert_eq!(outcome.page().body(), "");
    assert_eq!(outcome.page().content_type(), None);
    assert_eq!(rejection(&outcome), Rejection::InvalidMethod);
}

#[test]
fn lowercase_get_is_rejected() {
    let outcome = handle_callback("get", "/oauth/callback?token=abc&session_id=xyz");
    assert_eq!(rejection(&outcome), Rejection::InvalidMethod);
}

#[test]
fn unknown_path_is_rejected() {
    let outcome = handle_callback("GET", "/other/path");
    assert_eq!(outcome.status(), 404);
    assert_eq!(outcome.page(), Page::Empty);
    assert_eq!(outcome.page().body(), "");
    assert_eq!(rejection(&outcome), Rejection::UnknownPath);
}

#[test]
fn path_is_matched_by_prefix() {
    let outcome = handle_callback("GET", "/oauth/callback/extra?token=a&session_id=b");
    assert_eq!(outcome.status(), 200);
}

#[test]
fn malformed_url_is_rejected() {
    let outcome = handle_callback("GET", ":99999/oauth/callback?token=a&session_id=b");
    assert_eq!(outcome.status(), 400);
    assert_eq!(outcome.page(), Page::Failure);
    assert_eq!(rejection(&outcome), Rejection::MalformedUrl);
}

#[test]
fn repeated_key_last_occurrence_wins() {
    let outcome = handle_callback("GET", "/oauth/callback?token=a&token=b&session_id=s");
    let result = completed(outcome);
    assert_eq!(result.token, "b");
    assert_eq!(result.session_id, "s");
}

#[test]
fn query_values_are_percent_decoded() {
    let outcome = handle_callback("GET", "/oauth/callback?token=a%20b%2Bc&session_id=x+y");
    let result = completed(outcome);
    assert_eq!(result.token, "a b+c");
    assert_eq!(result.session_id, "x y");
}

#[test]
fn extract_params_ignores_unknown_keys() {
    let p = extract_params(&pairs(&[("foo", "1"), ("token", "t"), ("session_id", "s"), ("bar", "2")]));
    assert_eq!(p.token, Some("t".to_string()));
    assert_eq!(p.session_id, Some("s".to_string()));
    assert_eq!(p.oauth_channel, None);
    assert!(!p.is_new_user);
}

#[test]
fn extract_params_of_empty_query() {
    let p = extract_params(&Vec::new());
    assert_eq!(p.token, None);
    assert_eq!(p.session_id, None);
    assert_eq!(p.oauth_channel, None);
    assert!(!p.is_new_user);
}

#[test]
fn extract_params_last_occurrence_wins() {
    let p = extract_params(&pairs(&[("token", "a"), ("session_id", "s"), ("token", "b"), ("is_new_user", "yes")]));
    assert_eq!(p.token, Some("b".to_string()));
    assert!(p.is_new_user);
}

#[test]
fn decide_callback_on_parsed_parts() {
    let parts = UrlParts {
        path: "/oauth/callback".to_string(),
        query: pairs(&[("token", "abc"), ("session_id", "xyz"), ("is_new_user", "1")]),
    };
    let result = completed(decide_callback("GET", Some(parts)));
    assert_eq!(result.token, "abc");
    assert_eq!(result.session_id, "xyz");
    assert!(result.is_new_user);

    let outcome = decide_callback("GET", None);
    assert_eq!(rejection(&outcome), Rejection::MalformedUrl);

    let other = UrlParts { path: "/oauth".to_string(), query: Vec::new() };
    assert_eq!(rejection(&decide_callback("GET", Some(other))), Rejection::UnknownPath);

    let parts = UrlParts { path: "/oauth/callback".to_string(), query: Vec::new() };
    assert_eq!(rejection(&decide_callback("PUT", Some(parts))), Rejection::InvalidMethod);
}
