use fwdproxy::config::ProxyConfig;
use fwdproxy::handler::{plan, client_response};
use fwdproxy::model::{Header, InboundRequest, Decision};

fn hdr(name: &str, value: &[u8]) -> Header {
    Header { name: name.as_bytes().to_vec(), value: value.to_vec() }
}

fn req(method: &str, path: Option<&str>, headers: Vec<Header>, body: &[u8]) -> InboundRequest {
    InboundRequest {
        method: method.as_bytes().to_vec(),
        path_and_query: path.map(|p| p.as_bytes().to_vec()),
        headers,
        body: body.to_vec(),
    }
}

#[test]
fn get_with_query_forwards_with_https_default() {
    let cfg = ProxyConfig::new(3000);
    let r = req("GET", Some("/hello?x=1"), vec![hdr("host", b"example.com")], b"");
    match plan(&cfg, r) {
        Decision::Forward(o) => {
            assert_eq!(o.method, b"GET".to_vec());
            assert_eq!(o.uri, b"https://example.com/hello?x=1".to_vec());
        }
        _ => panic!("expected a forwarded request"),
    }
}

#[test]
fn self_hostname_form_is_rejected() {
    let cfg = ProxyConfig::new(3000);
    let r = req("GET", Some("/"), vec![hdr("host", b"localhost:3000")], b"");
    match plan(&cfg, r) {
        Decision::Reject(resp) => {
            assert_eq!(resp.status, 400);
            assert_eq!(resp.body, b"Request to proxy itself not allowed".to_vec());
            assert!(resp.headers.is_empty());
        }
        _ => panic!("expected a rejection"),
    }
}

#[test]
fn self_loopback_form_is_rejected() {
    let cfg = ProxyConfig::new(3000);
    let r = req("GET", Some("/"), vec![hdr("host", b"127.0.0.1:3000")], b"");
    assert!(matches!(plan(&cfg, r), Decision::Reject(_)));
}

#[test]
fn self_check_matches_port() {
    // The same host strings are not self-referential under another port.
    let cfg = ProxyConfig::new(8080);
    let r = req("GET", Some("/"), vec![hdr("host", b"localhost:3000")], b"");
    assert!(matches!(plan(&cfg, r), Decision::Forward(_)));
}

#[test]
fn post_body_and_headers_pass_through() {
    let cfg = ProxyConfig::new(3000);
    let headers = vec![
        hdr("host", b"example.com"),
        hdr("Content-Length", b"7"),
        hdr("content-type", b"application/json"),
    ];
    let r = req("POST", Some("/api"), headers.clone(), b"{\"a\":1}");
    match plan(&cfg, r) {
        Decision::Forward(o) => {
            assert_eq!(o.method, b"POST".to_vec());
            assert_eq!(o.uri, b"https://example.com/api".to_vec());
            assert_eq!(o.body, b"{\"a\":1}".to_vec());
            assert_eq!(o.headers, headers);
        }
        _ => panic!("expected a forwarded request"),
    }
}

#[test]
fn duplicate_and_mixed_case_headers_pass_through() {
    let cfg = ProxyConfig::new(3000);
    let headers = vec![
        hdr("Host", b"example.com"),
        hdr("X-Tag", b"one"),
        hdr("x-tag", b"two"),
        hdr("X-TAG", b"one"),
    ];
    let r = req("GET", Some("/"), headers.clone(), b"");
    match plan(&cfg, r) {
        Decision::Forward(o) => {
            assert_eq!(o.headers, headers);
        }
        _ => panic!("expected a forwarded request"),
    }
}

#[test]
fn absolute_http_path_gets_no_second_scheme() {
    let cfg = ProxyConfig::new(3000);
    let r = req("GET", Some("http://other.com/x"), vec![hdr("host", b"example.com")], b"");
    match plan(&cfg, r) {
        Decision::Forward(o) => {
            // Host and path concatenated exactly as given, nothing prepended.
            assert_eq!(o.uri, b"example.comhttp://other.com/x".to_vec());
        }
        _ => panic!("expected a forwarded request"),
    }
}

#[test]
fn absolute_https_path_gets_no_second_scheme() {
    let cfg = ProxyConfig::new(3000);
    let r = req("GET", Some("https://other.com/x"), vec![hdr("host", b"example.com")], b"");
    match plan(&cfg, r) {
        Decision::Forward(o) => {
            assert_eq!(o.uri, b"example.comhttps://other.com/x".to_vec());
        }
        _ => panic!("expected a forwarded request"),
    }
}

#[test]
fn missing_path_defaults_to_slash() {
    let cfg = ProxyConfig::new(3000);
    let r = req("GET", None, vec![hdr("host", b"example.com")], b"");
    match plan(&cfg, r) {
        Decision::Forward(o) => {
            assert_eq!(o.uri, b"https://example.com/".to_vec());
        }
        _ => panic!("expected a forwarded request"),
    }
}

#[test]
fn missing_host_is_an_invalid_target() {
    let cfg = ProxyConfig::new(3000);
    let r = req("GET", Some("/"), vec![hdr("accept", b"*/*")], b"");
    assert!(matches!(plan(&cfg, r), Decision::InvalidTarget));
}

#[test]
fn unreadable_host_value_is_an_invalid_target() {
    let cfg = ProxyConfig::new(3000);
    // A control byte in the Host value: the header cannot be read as text,
    // so the placeholder takes its place and the target does not parse.
    let r = req("GET", Some("/"), vec![hdr("host", b"exam\x01ple.com")], b"");
    assert!(matches!(plan(&cfg, r), Decision::InvalidTarget));
}

#[test]
fn host_with_space_is_an_invalid_target() {
    let cfg = ProxyConfig::new(3000);
    let r = req("GET", Some("/"), vec![hdr("host", b"exa mple.com")], b"");
    assert!(matches!(plan(&cfg, r), Decision::InvalidTarget));
}

#[test]
fn host_header_lookup_is_case_insensitive() {
    let cfg = ProxyConfig::new(3000);
    let r = req("GET", Some("/"), vec![hdr("HOST", b"example.com")], b"");
    match plan(&cfg, r) {
        Decision::Forward(o) => {
            assert_eq!(o.uri, b"https://example.com/".to_vec());
        }
        _ => panic!("expected a forwarded request"),
    }
}

#[test]
fn first_host_header_wins() {
    let cfg = ProxyConfig::new(3000);
    let headers = vec![hdr("host", b"first.example"), hdr("host", b"second.example")];
    let r = req("GET", Some("/"), headers, b"");
    match plan(&cfg, r) {
        Decision::Forward(o) => {
            assert_eq!(o.uri, b"https://first.example/".to_vec());
        }
        _ => panic!("expected a forwarded request"),
    }
}

#[test]
fn echo_transport_round_trip() {
    let cfg = ProxyConfig::new(3000);
    let headers = vec![hdr("host", b"example.com"), hdr("x-extra", b"kept")];
    let body: &[u8] = b"round trip payload";
    let r = req("PUT", Some("/echo"), headers.clone(), body);
    match plan(&cfg, r) {
        Decision::Forward(o) => {
            // A transport that echoes the outbound request back.
            let echoed = client_response(200, o.headers, o.body);
            assert_eq!(echoed.status, 200);
            assert_eq!(echoed.headers, headers);
            assert_eq!(echoed.body, body.to_vec());
        }
        _ => panic!("expected a forwarded request"),
    }
}

#[test]
fn client_response_relays_all_parts() {
    let headers = vec![hdr("content-type", b"text/plain")];
    let resp = client_response(503, headers.clone(), b"busy".to_vec());
    assert_eq!(resp.status, 503);
    assert_eq!(resp.headers, headers);
    assert_eq!(resp.body, b"busy".to_vec());
}
