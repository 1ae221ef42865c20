use codex_bridge::http::server_model;
use reqwest::header::HeaderMap;
use reqwest::header::HeaderName;
use reqwest::header::HeaderValue;

fn headers(pairs: &[(&'static str, &[u8])]) -> HeaderMap {
    let mut headers = HeaderMap::new();
    for (name, value) in pairs {
        headers.append(
            HeaderName::from_static(name),
            HeaderValue::from_bytes(value).expect("header value"),
        );
    }
    headers
}

#[test]
fn the_server_model_is_the_first_value_of_its_header() {
    let found = server_model(&headers(&[
        ("x-other", b"no"),
        ("openai-model", b"gpt-a b\tc"),
        ("openai-model", b"gpt-b"),
    ]));
    assert_eq!(found.as_deref(), Some("gpt-a b\tc"));
}

#[test]
fn a_header_that_is_missing_or_not_ascii_names_no_model() {
    assert_eq!(server_model(&headers(&[("x-other", b"no")])), None);
    assert_eq!(server_model(&headers(&[("openai-model", b"caf\xc3\xa9")])), None);
    assert_eq!(server_model(&headers(&[("openai-model", b"")])).as_deref(), Some(""));
}
