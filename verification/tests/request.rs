use storage::request::SignPayload;
use storage::signing::Header;

fn payload(bucket: &str, set: Option<&str>, object: &str) -> Option<SignPayload> {
    SignPayload::new(
        bucket.to_string(),
        set.map(|s| s.to_string()),
        object.to_string(),
        "GET".to_string(),
        vec![Header { name: "range".to_string(), value: "bytes=0-9".to_string() }],
    )
}

#[test]
fn payload_keeps_its_parts() {
    let payload = payload("media", Some("thumbs"), "cat.png").unwrap();
    assert_eq!(payload.bucket(), "media");
    assert_eq!(payload.set(), Some("thumbs"));
    assert_eq!(payload.object(), "cat.png");
    assert_eq!(payload.method(), "GET");
    assert_eq!(payload.headers().len(), 1);
    assert_eq!(payload.headers()[0].name, "range");
    assert_eq!(payload.headers()[0].value, "bytes=0-9");
}

#[test]
fn payload_without_set() {
    let payload = payload("media", None, "cat.png").unwrap();
    assert_eq!(payload.set(), None);
}

#[test]
fn payload_with_empty_bucket_is_refused() {
    assert!(payload("", None, "cat.png").is_none());
}

#[test]
fn payload_with_empty_object_is_refused() {
    assert!(payload("media", Some("thumbs"), "").is_none());
}

#[test]
fn payload_may_have_an_empty_set_or_method() {
    assert!(payload("media", Some(""), "cat.png").is_some());
    let payload =
        SignPayload::new("b".to_string(), None, "o".to_string(), String::new(), Vec::new());
    assert!(payload.is_some());
}
