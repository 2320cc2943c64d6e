use tunnel_api::json::{connected_body, frame_connected, health, not_connected};
use tunnel_api::routes::{handle, respond, ApiResponse, ContentType, Route};
use tunnel_api::text::{push_decimal, same_text};
use tunnel_api::tunnel::TunnelInfo;

fn info(server: &str, port: u16) -> TunnelInfo {
    TunnelInfo::new(server.to_string(), port)
}

fn parse(resp: &ApiResponse) -> serde_json::Value {
    serde_json::from_str(&resp.body).expect("body is JSON")
}

fn decimal_of(n: u16) -> String {
    let mut s = String::new();
    push_decimal(&mut s, n);
    s
}

#[test]
fn connected_example_scenario() {
    let slot = Some(info("198.51.100.7", 41000));
    let resp = handle("GET", "/api/tunnel", slot.as_ref());
    assert_eq!(resp.status, 200);
    assert_eq!(resp.content_type, ContentType::Json);
    assert_eq!(
        resp.body,
        "{\"status\":\"connected\",\"server\":\"198.51.100.7\",\"remote_port\":41000,\"public_url\":\"198.51.100.7:41000\"}"
    );
}

#[test]
fn written_pairs_are_echoed() {
    let pairs = [("tunnel.example.com", 1u16), ("10.0.0.1", 65535), ("a", 80), ("host\"with\\quote", 8080)];
    for (server, port) in pairs {
        let slot = Some(info(server, port));
        let resp = handle("GET", "/api/tunnel", slot.as_ref());
        assert_eq!(resp.status, 200);
        let v = parse(&resp);
        assert_eq!(v["status"], "connected");
        assert_eq!(v["server"], server);
        assert_eq!(v["remote_port"], port as u64);
        assert_eq!(v["public_url"], format!("{}:{}", server, port));
        assert_eq!(v.as_object().unwrap().len(), 4);
    }
}

#[test]
fn server_string_is_escaped() {
    let slot = Some(info("a\"b", 7));
    let resp = handle("GET", "/api/tunnel", slot.as_ref());
    assert_eq!(
        resp.body,
        "{\"status\":\"connected\",\"server\":\"a\\\"b\",\"remote_port\":7,\"public_url\":\"a\\\"b:7\"}"
    );
}

#[test]
fn not_connected_before_any_write() {
    let slot: Option<TunnelInfo> = None;
    let resp = handle("GET", "/api/tunnel", slot.as_ref());
    assert_eq!(resp.status, 503);
    assert_eq!(resp.content_type, ContentType::Json);
    assert_eq!(resp.body, "{\"status\":\"not_connected\",\"error\":\"Tunnel not established yet\"}");
    let v = parse(&resp);
    assert_eq!(v["status"], "not_connected");
    assert_eq!(v["error"], "Tunnel not established yet");
}

#[test]
fn health_before_and_after_write() {
    let mut slot: Option<TunnelInfo> = None;
    let before = handle("GET", "/health", slot.as_ref());
    slot = Some(info("198.51.100.7", 41000));
    let after = handle("GET", "/health", slot.as_ref());
    for resp in [before, after] {
        assert_eq!(resp.status, 200);
        assert_eq!(resp.content_type, ContentType::Json);
        assert_eq!(resp.body, "{\"status\":\"ok\"}");
    }
}

#[test]
fn undefined_paths_and_methods_not_found() {
    let slot = Some(info("198.51.100.7", 41000));
    let cases = [
        ("GET", "/foo"),
        ("POST", "/api/tunnel"),
        ("POST", "/health"),
        ("DELETE", "/health"),
        ("GET", "/"),
        ("GET", "/api/tunnel/"),
        ("GET", "/healthz"),
        ("get", "/health"),
        ("", ""),
    ];
    for (method, path) in cases {
        for state in [None, slot.as_ref()] {
            let resp = handle(method, path, state);
            assert_eq!(resp.status, 404);
            assert_eq!(resp.content_type, ContentType::PlainText);
            assert_eq!(resp.body, "Not Found");
        }
    }
}

#[test]
fn repeated_requests_give_identical_responses() {
    for slot in [None, Some(info("198.51.100.7", 41000))] {
        let a = handle("GET", "/api/tunnel", slot.as_ref());
        let b = handle("GET", "/api/tunnel", slot.as_ref());
        assert_eq!(a.status, b.status);
        assert_eq!(a.content_type, b.content_type);
        assert_eq!(a.body, b.body);
    }
}

#[test]
fn answer_comes_from_one_whole_record() {
    let old_info = info("old.example", 1000);
    let new_info = info("new.example", 2000);
    for observed in [&old_info, &new_info] {
        let resp = handle("GET", "/api/tunnel", Some(observed));
        let v = parse(&resp);
        let server = v["server"].as_str().unwrap().to_string();
        let port = v["remote_port"].as_u64().unwrap();
        assert_eq!(server, observed.server_addr);
        assert_eq!(port, observed.remote_port as u64);
        assert_eq!(v["public_url"], format!("{}:{}", server, port));
    }
}

#[test]
fn last_write_wins() {
    let mut slot = Some(info("first.example", 1000));
    slot = Some(info("second.example", 2000));
    let resp = handle("GET", "/api/tunnel", slot.as_ref());
    assert_eq!(parse(&resp)["public_url"], "second.example:2000");
}

#[test]
fn public_url_joins_server_and_port() {
    assert_eq!(info("198.51.100.7", 41000).public_url(), "198.51.100.7:41000");
    assert_eq!(info("h", 1).public_url(), "h:1");
    assert_eq!(info("h", 65535).public_url(), "h:65535");
}

#[test]
fn decimal_rendering() {
    assert_eq!(decimal_of(0), "0");
    assert_eq!(decimal_of(7), "7");
    assert_eq!(decimal_of(10), "10");
    assert_eq!(decimal_of(100), "100");
    assert_eq!(decimal_of(41000), "41000");
    assert_eq!(decimal_of(65535), "65535");
    let mut s = String::from("port=");
    push_decimal(&mut s, 443);
    assert_eq!(s, "port=443");
}

#[test]
fn text_comparison() {
    assert!(same_text("GET", "GET"));
    assert!(same_text("", ""));
    assert!(!same_text("GET", "GETS"));
    assert!(!same_text("GET", "get"));
    assert!(!same_text("/health", "/api/tunnel"));
    assert!(same_text("h\u{e9}llo", "h\u{e9}llo"));
}

#[test]
fn framing_of_connected_body() {
    assert_eq!(
        frame_connected("\"x\"", 41000, "\"u\""),
        "{\"status\":\"connected\",\"server\":\"x\",\"remote_port\":41000,\"public_url\":\"u\"}"
    );
    assert_eq!(
        connected_body(&info("s", 5)),
        "{\"status\":\"connected\",\"server\":\"s\",\"remote_port\":5,\"public_url\":\"s:5\"}"
    );
    assert_eq!(not_connected(), "{\"status\":\"not_connected\",\"error\":\"Tunnel not established yet\"}");
    assert_eq!(health(), "{\"status\":\"ok\"}");
}

#[test]
fn routes_and_content_types() {
    assert_eq!(Route::of("GET", "/api/tunnel"), Route::TunnelStatus);
    assert_eq!(Route::of("GET", "/health"), Route::Health);
    assert_eq!(Route::of("PUT", "/health"), Route::NotFound);
    assert!(Route::TunnelStatus.reads_tunnel_state());
    assert!(!Route::Health.reads_tunnel_state());
    assert!(!Route::NotFound.reads_tunnel_state());
    assert_eq!(ContentType::Json.mime(), "application/json");
    assert_eq!(ContentType::PlainText.mime(), "text/plain");
    let resp = respond(Route::Health, Some(&info("x", 1)));
    assert_eq!(resp.body, "{\"status\":\"ok\"}");
}
