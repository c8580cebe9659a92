use storage::error::Error;
use storage::signing::SignedRequestBuilder;

fn pairs(headers: &[storage::signing::Header]) -> Vec<(String, String)> {
    headers.iter().map(|h| (h.name.clone(), h.value.clone())).collect()
}

fn pair(name: &str, value: &str) -> (String, String) {
    (name.to_string(), value.to_string())
}

#[test]
fn builder_collects_the_parts() {
    let spec = SignedRequestBuilder::new()
        .method("PUT")
        .bucket("media")
        .object("thumbs.cat.png")
        .add_header("content-type", "image/png")
        .build()
        .unwrap();
    assert_eq!(spec.method(), "PUT");
    assert_eq!(spec.bucket(), "media");
    assert_eq!(spec.object(), "thumbs.cat.png");
    assert_eq!(pairs(spec.headers()), vec![pair("content-type", "image/png")]);
}

#[test]
fn builder_without_headers() {
    let spec = SignedRequestBuilder::new().method("GET").bucket("b").object("o").build().unwrap();
    assert!(spec.headers().is_empty());
}

#[test]
fn later_part_replaces_earlier() {
    let spec = SignedRequestBuilder::new()
        .method("GET")
        .method("HEAD")
        .bucket("a")
        .bucket("b")
        .object("x")
        .object("y")
        .build()
        .unwrap();
    assert_eq!(spec.method(), "HEAD");
    assert_eq!(spec.bucket(), "b");
    assert_eq!(spec.object(), "y");
}

#[test]
fn later_header_replaces_earlier_of_the_same_name() {
    let spec = SignedRequestBuilder::new()
        .method("PUT")
        .bucket("b")
        .object("o")
        .add_header("cache-control", "no-cache")
        .add_header("content-type", "image/png")
        .add_header("cache-control", "max-age=60")
        .build()
        .unwrap();
    let mut headers = pairs(spec.headers());
    headers.sort();
    assert_eq!(
        headers,
        vec![pair("cache-control", "max-age=60"), pair("content-type", "image/png")]
    );
}

#[test]
fn header_names_are_told_apart_as_written() {
    let spec = SignedRequestBuilder::new()
        .method("PUT")
        .bucket("b")
        .object("o")
        .add_header("Content-Type", "a")
        .add_header("content-type", "b")
        .build()
        .unwrap();
    assert_eq!(spec.headers().len(), 2);
}

#[test]
fn missing_method() {
    match SignedRequestBuilder::new().bucket("b").object("o").build() {
        Err(Error::SignedRequestBuild { detail }) => assert_eq!(detail, "missing method"),
        other => panic!("unexpected: {:?}", other),
    }
}

#[test]
fn missing_bucket() {
    match SignedRequestBuilder::new().method("GET").object("o").build() {
        Err(Error::SignedRequestBuild { detail }) => assert_eq!(detail, "missing bucket"),
        other => panic!("unexpected: {:?}", other),
    }
}

#[test]
fn missing_object() {
    match SignedRequestBuilder::new().method("GET").bucket("b").add_header("a", "b").build() {
        Err(Error::SignedRequestBuild { detail }) => assert_eq!(detail, "missing object"),
        other => panic!("unexpected: {:?}", other),
    }
}

#[test]
fn missing_everything_names_the_method() {
    let error = SignedRequestBuilder::new().build().unwrap_err();
    assert_eq!(error.message(), "error signing a request: missing method");
    assert!(!error.refusal());
}
