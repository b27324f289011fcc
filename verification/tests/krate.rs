use wasm_pack::install::krate::{
    Krate, KrateResponse, LookupError, Reply, Request, CLIENT_HEADER, CLIENT_PREFIX,
    REGISTRY_ENDPOINT, UNKNOWN_VERSION,
};
use wasm_pack::install::Tool;

fn envelope(version: &str) -> KrateResponse {
    KrateResponse { krate: Krate { max_version: version.to_string() } }
}

#[test]
fn the_protocol_texts_are_the_documented_ones() {
    assert_eq!(REGISTRY_ENDPOINT, "https://crates.io/api/v1/crates/");
    assert_eq!(CLIENT_HEADER, "user-agent");
    assert_eq!(CLIENT_PREFIX, "wasm-pack/");
    assert_eq!(UNKNOWN_VERSION, "unknown");
}

#[test]
fn a_tool_keeps_its_name() {
    assert_eq!(Tool::new("wasm-bindgen").name(), "wasm-bindgen");
    assert_eq!(Tool::new("").name(), "");
}

#[test]
fn the_request_names_the_tool_and_the_client() {
    let request = Krate::request(&Tool::new("foo"), Some("0.13.1"));
    assert_eq!(
        request,
        Request {
            url: "https://crates.io/api/v1/crates/foo".to_string(),
            user_agent: "wasm-pack/0.13.1".to_string(),
        }
    );
}

#[test]
fn a_client_of_unknown_version_says_so() {
    let request = Krate::request(&Tool::new("wasm-opt"), None);
    assert_eq!(request.url, "https://crates.io/api/v1/crates/wasm-opt");
    assert_eq!(request.user_agent, "wasm-pack/unknown");
}

#[test]
fn the_tool_name_is_embedded_as_it_is() {
    let request = Krate::request(&Tool::new("cargo-generate"), Some(""));
    assert_eq!(request.url, "https://crates.io/api/v1/crates/cargo-generate");
    assert_eq!(request.user_agent, "wasm-pack/");
    let request = Krate::request(&Tool::new(""), None);
    assert_eq!(request.url, "https://crates.io/api/v1/crates/");
}

#[test]
fn an_envelope_gives_its_crate() {
    let krate = Krate::new(Reply::Envelope(envelope("1.2.3"))).unwrap();
    assert_eq!(krate.max_version, "1.2.3");
}

#[test]
fn the_version_is_not_checked_any_further() {
    let krate = Krate::new(Reply::Envelope(envelope("not a version"))).unwrap();
    assert_eq!(krate, Krate { max_version: "not a version".to_string() });
    let krate = Krate::new(Reply::Envelope(envelope(""))).unwrap();
    assert_eq!(krate.max_version, "");
}

#[test]
fn a_failed_transport_is_an_error() {
    let reason = "http status: 404".to_string();
    assert_eq!(Krate::new(Reply::Failed(reason.clone())), Err(LookupError::Transport(reason)));
}

#[test]
fn a_malformed_body_is_an_error() {
    let reason = "missing field `crate` at line 1 column 2".to_string();
    assert_eq!(Krate::new(Reply::Malformed(reason.clone())), Err(LookupError::Body(reason)));
}

#[test]
fn an_error_carries_the_reason() {
    assert_eq!(LookupError::Transport("timed out".to_string()).message(), "timed out");
    assert_eq!(LookupError::Body("expected value".to_string()).message(), "expected value");
}
