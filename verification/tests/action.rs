use storage::action::{parse_action, Action};
use storage::error::Error;

#[test]
fn head_reads() {
    assert_eq!(parse_action("HEAD").unwrap(), Action::Read);
}

#[test]
fn get_reads() {
    assert_eq!(parse_action("GET").unwrap(), Action::Read);
}

#[test]
fn put_updates() {
    assert_eq!(parse_action("PUT").unwrap(), Action::Update);
}

#[test]
fn delete_deletes() {
    assert_eq!(parse_action("DELETE").unwrap(), Action::Delete);
}

#[test]
fn patch_is_unsupported() {
    match parse_action("PATCH") {
        Err(Error::UnsupportedMethod { method }) => assert_eq!(method, "PATCH"),
        other => panic!("unexpected: {:?}", other),
    }
}

#[test]
fn methods_are_matched_as_written() {
    for method in ["get", "Get", "head", "put", "delete", "", " GET", "GET ", "POST", "OPTIONS"] {
        assert!(matches!(parse_action(method), Err(Error::UnsupportedMethod { .. })), "{}", method);
    }
}

#[test]
fn unsupported_method_message_names_the_method() {
    let error = parse_action("PATCH").unwrap_err();
    assert_eq!(error.message(), "invalid method = PATCH");
    assert!(error.refusal());
}

#[test]
fn verbs_are_what_providers_expect() {
    assert_eq!(Action::Read.as_str(), "read");
    assert_eq!(Action::Update.as_str(), "update");
    assert_eq!(Action::Delete.as_str(), "delete");
}
