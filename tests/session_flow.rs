use trav_proxy::http::Method;
use trav_proxy::session::{
    established_reply, new_session_id, parse_connect_target, session_id_from_uuid_bytes, Session, SessionError,
    TunnelEvent, TunnelPhase,
};

fn connected(first: &str) -> Session {
    let mut s = Session::new(7).unwrap();
    s.session_connect(first.as_bytes()).unwrap();
    s
}

#[test]
fn new_session_awaits_its_request() {
    let s = Session::new(42).unwrap();
    assert_eq!(s.session_id, 42);
    assert!(s.time.is_some());
    assert_eq!(s.phase, TunnelPhase::AwaitRequest);
    assert_eq!(s.get_request_data(), "");
    assert_eq!(s.get_response_data(), "");
    assert_eq!(s.request.method, Method::GET);
    assert!(s.request.url.is_empty() && s.request.http_version.is_empty());
    assert!(s.request.headers.is_empty() && s.request.body.is_empty());
    assert_eq!(s.response.status_code, 0);
    assert!(s.response.message.is_empty());
    assert!(s.response.data.is_none() && s.response.error.is_none());
    assert_eq!(s.failed_at, None);
    assert_eq!(s.target, None);
}

#[test]
fn established_reply_is_the_tunnel_line() {
    assert_eq!(established_reply().as_bytes(), b"HTTP/1.1 200 Connection established\r\n\r\n");
}

#[test]
fn first_request_arriving_in_parts_is_awaited() {
    let full = b"CONNECT example.com:443 HTTP/1.1\r\nHost: example.com:443\r\n\r\n";
    let mut s = Session::new(3).unwrap();
    for cut in [10, 33, 55, full.len() - 1] {
        assert_eq!(s.session_connect(&full[..cut]), Err(SessionError::Incomplete));
        assert_eq!(s.phase, TunnelPhase::AwaitRequest);
    }
    assert_eq!(s.session_connect(full), Ok(()));
    assert_eq!(s.request.url, "example.com:443");
    assert_eq!(s.request.headers, vec!["Host: example.com:443".to_string()]);
    assert_eq!(s.phase, TunnelPhase::SendEstablished);
}

#[test]
fn connect_scenario_runs_every_step_in_order() {
    let mut s = connected("CONNECT example.com:443 HTTP/1.1\r\nHost: example.com:443\r\n\r\n");
    assert_eq!(s.request.method, Method::CONNECT);
    assert_eq!(s.target, Some(("example.com".to_string(), "443".to_string())));
    assert_eq!(s.phase, TunnelPhase::SendEstablished);
    assert_eq!(s.handle_https(TunnelEvent::Succeeded), TunnelPhase::IssueLeaf);
    assert_eq!(s.handle_https(TunnelEvent::Succeeded), TunnelPhase::ConnectOrigin);
    assert_eq!(s.handle_https(TunnelEvent::Succeeded), TunnelPhase::OriginHandshake);
    assert_eq!(s.handle_https(TunnelEvent::Succeeded), TunnelPhase::ClientHandshake);
    assert_eq!(s.handle_https(TunnelEvent::Succeeded), TunnelPhase::Relay);
    let next = s.handle_https(TunnelEvent::Relayed(
        "GET /index.html HTTP/1.1\r\nHost: example.com\r\n\r\n".to_string(),
        "HTTP/1.1 200 OK\r\nContent-Type: text/html\r\n\r\n<p>hi</p>".to_string(),
    ));
    assert_eq!(next, TunnelPhase::Closed);
    assert_eq!(s.failed_at, None);
    assert_eq!(s.request.method, Method::GET);
    assert_eq!(s.request.url, "/index.html");
    assert_eq!(s.response.status_code, 200);
    assert_eq!(s.get_request_data(), "GET /index.html HTTP/1.1\r\nHost: example.com\r\n\r\n");
    assert_eq!(
        s.get_response_data(),
        "HTTP/1.1 200 OK\r\nContent-Type: text/html\r\n\r\n<p>hi</p>"
    );
}

#[test]
fn origin_handshake_failure_closes_before_client_handshake() {
    let mut s = connected("CONNECT example.com:443 HTTP/1.1\r\n\r\n");
    for _ in 0..3 {
        s.handle_https(TunnelEvent::Succeeded);
    }
    assert_eq!(s.phase, TunnelPhase::OriginHandshake);
    assert_eq!(s.handle_https(TunnelEvent::Failed), TunnelPhase::Closed);
    assert_eq!(s.failed_at, Some(TunnelPhase::OriginHandshake));
    for _ in 0..3 {
        assert_eq!(s.handle_https(TunnelEvent::Succeeded), TunnelPhase::Closed);
    }
    assert_eq!(s.failed_at, Some(TunnelPhase::OriginHandshake));
}

#[test]
fn any_failed_step_closes_the_session() {
    for steps in 0..5 {
        let mut s = connected("CONNECT h:1 HTTP/1.1\r\n\r\n");
        for _ in 0..steps {
            s.handle_https(TunnelEvent::Succeeded);
        }
        let at = s.phase;
        assert_eq!(s.handle_https(TunnelEvent::Failed), TunnelPhase::Closed);
        assert_eq!(s.failed_at, Some(at));
    }
}

#[test]
fn unreadable_capture_keeps_earlier_records() {
    let mut s = connected("CONNECT h:1 HTTP/1.1\r\n\r\n");
    for _ in 0..5 {
        s.handle_https(TunnelEvent::Succeeded);
    }
    s.handle_https(TunnelEvent::Relayed("\u{1}binary".to_string(), "xyz".to_string()));
    assert_eq!(s.request.method, Method::CONNECT);
    assert_eq!(s.response.status_code, 0);
    assert_eq!(s.get_request_data(), "\u{1}binary");
    assert_eq!(s.get_response_data(), "xyz");
}

#[test]
fn first_request_errors() {
    let mut s = Session::new(1).unwrap();
    assert_eq!(s.session_connect(b""), Err(SessionError::NoData));
    assert_eq!(s.session_connect(&[0xff, b'\n', b'\n']), Err(SessionError::NotText));
    assert_eq!(s.session_connect(b"hello\r\n"), Err(SessionError::Incomplete));
    assert_eq!(s.session_connect(b"hello\r\n\r\n"), Err(SessionError::BadRequest));
    assert_eq!(s.phase, TunnelPhase::AwaitRequest);
    assert_eq!(s.session_connect(b"CONNECT nowhere HTTP/1.1\r\n\r\n"), Err(SessionError::BadTarget));
    assert_eq!(s.phase, TunnelPhase::Closed);
    assert_eq!(s.failed_at, Some(TunnelPhase::AwaitRequest));
}

#[test]
fn other_methods_are_recorded_and_closed() {
    let s = connected("GET / HTTP/1.1\r\nHost: a\r\n\r\n");
    assert_eq!(s.request.method, Method::GET);
    assert_eq!(s.phase, TunnelPhase::Closed);
    assert_eq!(s.target, None);
}

#[test]
fn connect_target_takes_first_two_pieces() {
    assert_eq!(
        parse_connect_target("example.com:443"),
        Some(("example.com".to_string(), "443".to_string()))
    );
    assert_eq!(parse_connect_target("a:1:2"), Some(("a".to_string(), "1".to_string())));
    assert_eq!(parse_connect_target("a:"), Some(("a".to_string(), "".to_string())));
    assert_eq!(parse_connect_target("nohost"), None);
}

#[test]
fn session_id_is_little_endian_prefix() {
    let mut b = [0u8; 16];
    b[0] = 0x78;
    b[1] = 0x56;
    b[2] = 0x34;
    b[3] = 0x12;
    b[4] = 0xff;
    assert_eq!(session_id_from_uuid_bytes(&b), 0x1234_5678);
    assert_eq!(session_id_from_uuid_bytes(&[0xff; 16]), u32::MAX);
    let _ = new_session_id();
}
