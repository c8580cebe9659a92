use storage::error::Error;
use storage::response::{healthz, redirect, Outcome, SignResponse, OK, SEE_OTHER};

#[test]
fn healthz_is_ok_and_empty() {
    let response = healthz();
    assert_eq!(response.status(), 200);
    assert_eq!(response.status(), http::StatusCode::OK.as_u16());
    assert_eq!(response.location(), None);
    assert_eq!(response.body(), "");
}

#[test]
fn healthz_is_the_same_every_time() {
    for _ in 0..3 {
        let response = healthz();
        assert_eq!((response.status(), response.location(), response.body()), (OK, None, ""));
    }
}

#[test]
fn redirect_sends_the_caller_on() {
    let response = redirect("https://storage.example.org/media/cat.png?signature=abc").unwrap();
    assert_eq!(response.status(), 303);
    assert_eq!(response.status(), SEE_OTHER);
    assert_eq!(response.status(), http::StatusCode::SEE_OTHER.as_u16());
    assert_eq!(
        response.location(),
        Some("https://storage.example.org/media/cat.png?signature=abc")
    );
    assert_eq!(response.body(), "");
}

#[test]
fn redirect_to_an_empty_location() {
    let response = redirect("").unwrap();
    assert_eq!(response.status(), 303);
    assert_eq!(response.location(), Some(""));
}

#[test]
fn redirect_takes_tabs_spaces_and_bytes_above_ascii() {
    for location in ["a\tb", "a b", "~", "https://example.org/кот.png", "\u{80}", "é"] {
        let response = redirect(location).unwrap();
        assert_eq!(response.location(), Some(location));
    }
}

#[test]
fn redirect_refuses_control_characters() {
    for location in ["a\nb", "\r", "\0", "a\u{1f}", "\u{7f}", "https://example.org/\u{7f}"] {
        match redirect(location) {
            Err(Error::SignedRequestBuild { detail }) => assert_eq!(detail, "invalid location"),
            other => panic!("unexpected: {:?}", other),
        }
    }
}

#[test]
fn redirect_can_be_sent_with_http() {
    let response = redirect("https://storage.example.org/cat.png").unwrap();
    let sent = http::Response::builder()
        .status(response.status())
        .header("location", response.location().unwrap())
        .body(response.body().to_string())
        .unwrap();
    assert_eq!(sent.status(), http::StatusCode::SEE_OTHER);
    assert_eq!(sent.headers()["location"], "https://storage.example.org/cat.png");
    assert_eq!(sent.body(), "");
}

#[test]
fn error_messages() {
    assert_eq!(Error::AuthorizationDenied.message(), "access denied");
    assert_eq!(
        Error::AuthorizationProvider { detail: "timeout".to_string() }.message(),
        "authorization failed: timeout"
    );
    assert_eq!(
        Error::SignedRequestBuild { detail: "invalid header".to_string() }.message(),
        "error signing a request: invalid header"
    );
    assert_eq!(
        Error::AudienceEstimation { bucket: "media".to_string() }.message(),
        "no audience for bucket = media"
    );
    assert_eq!(
        Error::UnsupportedMethod { method: "PATCH".to_string() }.message(),
        "invalid method = PATCH"
    );
}

#[test]
fn refusals_are_told_from_failures() {
    assert!(Error::AuthorizationDenied.refusal());
    assert!(Error::UnsupportedMethod { method: "PATCH".to_string() }.refusal());
    assert!(!Error::AuthorizationProvider { detail: String::new() }.refusal());
    assert!(!Error::SignedRequestBuild { detail: String::new() }.refusal());
    assert!(!Error::AudienceEstimation { bucket: String::new() }.refusal());
}

#[test]
fn outcomes_hold_what_they_were_given() {
    match Outcome::Signed(SignResponse { uri: "https://x".to_string() }) {
        Outcome::Signed(response) => assert_eq!(response.uri, "https://x"),
        other => panic!("unexpected: {:?}", other),
    }
}
