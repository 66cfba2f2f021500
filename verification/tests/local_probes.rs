use prober_core::model::{Meta, ProbeKind};
use prober_core::probes::discv5_ping::{Discv5Outcome, Discv5PingProbe};
use prober_core::probes::dns::{DnsOutcome, DnsResolveProbe};
use prober_core::probes::http_control::{HttpControlProbe, HttpOutcome};
use prober_core::probes::https_jsonrpc::HttpsJsonRpcProbe;
use prober_core::probes::tcp::{TcpConnectProbe, TcpOutcome};
use prober_core::probes::wss_jsonrpc::{WssJsonRpcProbe, WssOutcome};

fn control(expect: Option<&str>) -> HttpControlProbe {
    HttpControlProbe {
        url: "http://127.0.0.1:1/ping".to_string(),
        expect_body: expect.map(|s| s.to_string()),
    }
}

fn compact(text: &str) -> String {
    serde_json::from_str::<serde_json::Value>(text).unwrap().to_string()
}

fn rpc() -> HttpsJsonRpcProbe {
    HttpsJsonRpcProbe { url: "http://127.0.0.1:1".to_string(), method: "eth_chainId".to_string() }
}

fn wss() -> WssJsonRpcProbe {
    WssJsonRpcProbe { url: "wss://example.org/rpc".to_string(), method: "eth_chainId".to_string() }
}

#[test]
fn http_control_works_with_mockito() {
    let probe = control(Some("ok"));
    let r = probe.conclude(HttpOutcome::Response { status: 200, body: "ok".to_string() }, 12);
    assert!(r.ok);
    assert_eq!(r.rtt_ms, Some(12));
    assert_eq!(r.error, None);
    assert_eq!(r.meta, Meta::Http { status: 200, body: "ok".to_string() });
}

#[test]
fn jsonrpc_works_with_mockito() {
    let probe = rpc();
    let body = r#"{"jsonrpc":"2.0","id":1,"result":"0x1"}"#.to_string();
    let r = probe.conclude(HttpOutcome::Response { status: 200, body: body.clone() }, 7);
    assert!(r.ok);
    assert_eq!(r.error, None);
    assert_eq!(r.rtt_ms, Some(7));
    assert_eq!(r.meta, Meta::JsonRpcHttp { status: 200, response: compact(&body) });
}

#[test]
fn model_kinds_are_stable() {
    let kinds: Vec<ProbeKind> = vec![
        ProbeKind::DnsResolve,
        ProbeKind::TcpConnect,
        ProbeKind::HttpControl,
        ProbeKind::HttpsJsonRpc,
        ProbeKind::WssJsonRpc,
        ProbeKind::Discv5Ping,
    ];
    assert_eq!(kinds.len(), 6);
}

#[test]
fn http_control_rejects_other_body() {
    let r = control(Some("ok"))
        .conclude(HttpOutcome::Response { status: 200, body: "ok\n".to_string() }, 3);
    assert!(!r.ok);
    assert_eq!(r.rtt_ms, Some(3));
    assert_eq!(r.error.as_deref(), Some("unexpected_response: status=200"));
}

#[test]
fn http_control_rejects_other_status() {
    let r = control(None).conclude(HttpOutcome::Response { status: 404, body: String::new() }, 3);
    assert!(!r.ok);
    assert_eq!(r.error.as_deref(), Some("unexpected_response: status=404"));
    assert_eq!(r.meta, Meta::Http { status: 404, body: String::new() });
}

#[test]
fn http_control_without_expectation_accepts_any_body() {
    let p = control(None);
    assert!(p.is_expected(200, &"whatever".to_string()));
    assert!(!p.is_expected(201, &"whatever".to_string()));
    let r = p.conclude(HttpOutcome::Response { status: 200, body: "x".to_string() }, 0);
    assert!(r.ok);
    assert_eq!(r.rtt_ms, Some(0));
}

#[test]
fn http_control_failures() {
    let p = control(None);
    let r = p.conclude(HttpOutcome::ClientBuildFailed { error: "no tls".to_string() }, 9);
    assert!(!r.ok);
    assert_eq!(r.rtt_ms, None);
    assert_eq!(r.error.as_deref(), Some("client_build_error: no tls"));
    assert_eq!(r.meta, Meta::Empty);
    let r = p.conclude(HttpOutcome::Failed { error: "connection refused".to_string() }, 9);
    assert!(!r.ok);
    assert_eq!(r.rtt_ms, Some(9));
    assert_eq!(r.error.as_deref(), Some("http_error: connection refused"));
    let r = p.conclude(HttpOutcome::TimedOut, 9);
    assert!(!r.ok);
    assert_eq!(r.rtt_ms, None);
    assert_eq!(r.error.as_deref(), Some("timeout"));
}

#[test]
fn jsonrpc_without_result_is_bad() {
    let body = r#"{"jsonrpc":"2.0","id":1}"#.to_string();
    let r = rpc().conclude(HttpOutcome::Response { status: 200, body: body.clone() }, 5);
    assert!(!r.ok);
    assert_eq!(r.error.as_deref(), Some("bad_jsonrpc: status=200"));
    assert_eq!(r.rtt_ms, Some(5));
    assert_eq!(r.meta, Meta::JsonRpcHttp { status: 200, response: compact(&body) });
}

#[test]
fn jsonrpc_with_result_but_bad_status() {
    let body = r#"{"result":1}"#.to_string();
    let r = rpc().conclude(HttpOutcome::Response { status: 500, body }, 5);
    assert!(!r.ok);
    assert_eq!(r.error.as_deref(), Some("bad_jsonrpc: status=500"));
}

#[test]
fn jsonrpc_body_that_is_not_json_is_kept_raw() {
    let r = rpc().conclude(HttpOutcome::Response { status: 200, body: "<html>".to_string() }, 5);
    assert!(!r.ok);
    assert_eq!(r.error.as_deref(), Some("bad_jsonrpc: status=200"));
    assert_eq!(r.meta, Meta::JsonRpcRaw { status: 200, raw: "<html>".to_string() });
}

#[test]
fn jsonrpc_failures() {
    let p = rpc();
    let r = p.conclude(HttpOutcome::Failed { error: "dns".to_string() }, 4);
    assert_eq!(r.error.as_deref(), Some("https_jsonrpc_error: dns"));
    assert_eq!(r.rtt_ms, Some(4));
    let r = p.conclude(HttpOutcome::ClientBuildFailed { error: "x".to_string() }, 4);
    assert_eq!(r.error.as_deref(), Some("client_build_error: x"));
    assert_eq!(r.rtt_ms, None);
    let r = p.conclude(HttpOutcome::TimedOut, 4);
    assert_eq!(r.error.as_deref(), Some("timeout"));
    assert_eq!(r.rtt_ms, None);
}

#[test]
fn jsonrpc_payload_is_exact() {
    assert_eq!(
        rpc().payload(),
        r#"{"jsonrpc":"2.0","id":1,"method":"eth_chainId","params":[]}"#
    );
    assert_eq!(wss().payload(), rpc().payload());
    let odd = HttpsJsonRpcProbe { url: String::new(), method: "a\"b\\c\n".to_string() };
    assert_eq!(
        odd.payload(),
        "{\"jsonrpc\":\"2.0\",\"id\":1,\"method\":\"a\\\"b\\\\c\\n\",\"params\":[]}"
    );
}

#[test]
fn tcp_timeout_has_no_rtt() {
    let p = TcpConnectProbe { host: "10.255.255.1".to_string(), port: 81 };
    let r = p.conclude(TcpOutcome::TimedOut, 50);
    assert!(!r.ok);
    assert_eq!(r.rtt_ms, None);
    assert_eq!(r.error.as_deref(), Some("timeout"));
    assert_eq!(r.meta, Meta::Empty);
}

#[test]
fn tcp_connected_and_failed() {
    let p = TcpConnectProbe { host: "localhost".to_string(), port: 8080 };
    assert_eq!(p.address(), "localhost:8080");
    let r = p.conclude(TcpOutcome::Connected, 2);
    assert!(r.ok);
    assert_eq!(r.rtt_ms, Some(2));
    assert_eq!(r.error, None);
    let r = p.conclude(TcpOutcome::Failed { error: "refused".to_string() }, 2);
    assert!(!r.ok);
    assert_eq!(r.rtt_ms, Some(2));
    assert_eq!(r.error.as_deref(), Some("tcp_error: refused"));
}

#[test]
fn dns_needs_an_address() {
    let p = DnsResolveProbe { host: "example.org".to_string(), port: 0 };
    assert_eq!(p.address(), "example.org:0");
    let r = p.conclude(DnsOutcome::Resolved { addrs: vec!["93.184.216.34:0".to_string()] }, 8);
    assert!(r.ok);
    assert_eq!(r.rtt_ms, Some(8));
    assert_eq!(r.meta, Meta::Addrs { addrs: vec!["93.184.216.34:0".to_string()] });
    let r = p.conclude(DnsOutcome::Resolved { addrs: vec![] }, 8);
    assert!(!r.ok);
    assert_eq!(r.rtt_ms, Some(8));
    assert_eq!(r.error, None);
    let r = p.conclude(DnsOutcome::Failed { error: "nxdomain".to_string() }, 8);
    assert!(!r.ok);
    assert_eq!(r.error.as_deref(), Some("dns_error: nxdomain"));
    let r = p.conclude(DnsOutcome::TimedOut, 8);
    assert_eq!(r.rtt_ms, None);
    assert_eq!(r.error.as_deref(), Some("timeout"));
}

#[test]
fn address_renders_every_port_width() {
    let mk = |port: u16| DnsResolveProbe { host: "h".to_string(), port }.address();
    assert_eq!(mk(7), "h:7");
    assert_eq!(mk(10), "h:10");
    assert_eq!(mk(443), "h:443");
    assert_eq!(mk(65535), "h:65535");
}

#[test]
fn wss_frame_with_result() {
    let frame = "{ \"result\" : [ 1, 2 ] }\n".to_string();
    let r = wss().conclude(WssOutcome::Text { frame }, 6);
    assert!(r.ok);
    assert_eq!(r.rtt_ms, Some(6));
    assert_eq!(r.error, None);
    assert_eq!(r.meta, Meta::JsonRpcWs { response: "{\"result\":[1,2]}".to_string() });
}

#[test]
fn wss_frame_without_result() {
    let frame = r#"{"jsonrpc":"2.0","id":1,"error":{"code":-32601}}"#.to_string();
    let r = wss().conclude(WssOutcome::Text { frame: frame.clone() }, 6);
    assert!(!r.ok);
    assert_eq!(r.error.as_deref(), Some("bad_jsonrpc_response"));
    assert_eq!(r.meta, Meta::JsonRpcWs { response: compact(&frame) });
}

#[test]
fn wss_frame_that_is_not_json() {
    let r = wss().conclude(WssOutcome::Text { frame: "hello".to_string() }, 6);
    assert!(!r.ok);
    assert_eq!(r.rtt_ms, Some(6));
    assert_eq!(r.error.as_deref(), Some("wss_error: expected value at line 1 column 1"));
    assert_eq!(r.meta, Meta::Empty);
}

#[test]
fn wss_closed_failed_and_timeout() {
    let r = wss().conclude(WssOutcome::ClosedWithoutResponse, 6);
    assert!(!r.ok);
    assert_eq!(r.error.as_deref(), Some("wss_error: ws_closed_without_response"));
    let r = wss().conclude(WssOutcome::Failed { error: "tls".to_string() }, 6);
    assert_eq!(r.error.as_deref(), Some("wss_error: tls"));
    assert_eq!(r.rtt_ms, Some(6));
    let r = wss().conclude(WssOutcome::TimedOut, 6);
    assert_eq!(r.error.as_deref(), Some("timeout"));
    assert_eq!(r.rtt_ms, None);
}

#[test]
fn wss_precheck_rejects_what_is_no_url() {
    assert_eq!(wss().precheck(), None);
    let bad = WssJsonRpcProbe { url: "not a url".to_string(), method: "m".to_string() };
    let r = bad.precheck().unwrap();
    assert!(!r.ok);
    assert_eq!(r.rtt_ms, None);
    assert_eq!(r.error.as_deref(), Some("bad_url: relative URL without a base"));
    assert_eq!(r.meta, Meta::Empty);
}

#[test]
fn jsonrpc_document_is_kept_in_compact_form() {
    let body = " {\"result\" :\t\"0x1\" } ".to_string();
    let r = rpc().conclude(HttpOutcome::Response { status: 200, body }, 1);
    assert!(r.ok);
    assert_eq!(
        r.meta,
        Meta::JsonRpcHttp { status: 200, response: "{\"result\":\"0x1\"}".to_string() }
    );
}

#[test]
fn discv5_precheck_rejects_malformed_records() {
    let good = Discv5PingProbe {
        enr: "enr:-IS4QHCYrYZbAKWCBRlAy5zzaDZXJBGkcnh4MHcBFZntXNFrdvJjX04jRzjzCBOonrkTfj499SZuOh8R33Ls8RRcy5wBgmlkgnY0gmlwhH8AAAGJc2VjcDI1NmsxoQPKY0yuDUmstAHYpMa2_oxVtw0RW_QAdpzBQA8yWM0xOIN1ZHCCdl8".to_string(),
    };
    assert_eq!(good.precheck(), None);
    let short = Discv5PingProbe { enr: "enr".to_string() };
    let r = short.precheck().unwrap();
    assert!(!r.ok);
    assert_eq!(r.rtt_ms, None);
    assert_eq!(r.error.as_deref(), Some("bad_enr: Invalid ENR string"));
    assert_eq!(r.meta, Meta::Empty);
    let padded = Discv5PingProbe {
        enr: "enr:-IS4QHCYrYZbAKWCBRlAy5zzaDZXJBGkcnh4MHcBFZntXNFrdvJjX04jRzjzCBOonrkTfj499SZuOh8R33Ls8RRcy5wBgmlkgnY0gmlwhH8AAAGJc2VjcDI1NmsxoQPKY0yuDUmstAHYpMa2_oxVtw0RW_QAdpzBQA8yWM0xOIN1ZHCCdl8=".to_string(),
    };
    let r = padded.precheck().unwrap();
    assert_eq!(r.error.as_deref(), Some("bad_enr: Invalid base64 encoding: InvalidPadding"));
}

#[test]
fn discv5_outcomes() {
    let p = Discv5PingProbe { enr: "enr:-xyz".to_string() };
    let r = p.conclude(Discv5Outcome::BadRecord { error: "bad base64".to_string() }, 1);
    assert!(!r.ok);
    assert_eq!(r.rtt_ms, None);
    assert_eq!(r.error.as_deref(), Some("bad_enr: bad base64"));
    let r = p.conclude(Discv5Outcome::SetupFailed { error: "bind".to_string() }, 1);
    assert_eq!(r.rtt_ms, None);
    assert_eq!(r.error.as_deref(), Some("discv5_new_error: bind"));
    let r = p.conclude(Discv5Outcome::Pong { pong: "Pong { seq: 1 }".to_string() }, 1);
    assert!(r.ok);
    assert_eq!(r.rtt_ms, Some(1));
    assert_eq!(r.meta, Meta::Pong { pong: "Pong { seq: 1 }".to_string() });
    let r = p.conclude(Discv5Outcome::Failed { error: "unreachable".to_string() }, 1);
    assert_eq!(r.rtt_ms, Some(1));
    assert_eq!(r.error.as_deref(), Some("discv5_ping_error: unreachable"));
    let r = p.conclude(Discv5Outcome::TimedOut, 1);
    assert_eq!(r.rtt_ms, None);
    assert_eq!(r.error.as_deref(), Some("timeout"));
}
