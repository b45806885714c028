use simplenote::{Body, Error, Method, Operation, Reply, Simplenote, TokenStep, AUTH_URL};

#[test]
fn login_request_encodes_credentials() {
    let s = Simplenote::new("me@example.com", "s3cret");
    let req = s.auth();
    assert_eq!(req.method, Method::Post);
    assert_eq!(req.url, AUTH_URL);
    match req.body {
        Body::Form(b) => assert_eq!(b, "ZW1haWw9bWVAZXhhbXBsZS5jb20mcGFzc3dvcmQ9czNjcmV0"),
        other => panic!("unexpected body {:?}", other),
    }
}

#[test]
fn first_operation_logs_in_then_token_is_cached() {
    let mut s = Simplenote::new("me@example.com", "s3cret");
    assert_eq!(s.token(), None);
    match s.begin() {
        TokenStep::Login(req) => assert_eq!(req.url, AUTH_URL),
        other => panic!("expected a login, got {:?}", other),
    }
    let t = s.accept_auth(Reply::Received { status: 200, content: "tok1".to_string() });
    assert_eq!(t, Ok("tok1".to_string()));
    // The second operation uses the cache: no second login.
    match s.begin() {
        TokenStep::Cached(t) => assert_eq!(t, "tok1"),
        other => panic!("expected the cached token, got {:?}", other),
    }
}

#[test]
fn reauthentication_replaces_token() {
    let mut s = Simplenote::new("u", "p");
    assert!(s.accept_auth(Reply::Received { status: 200, content: "old".to_string() }).is_ok());
    assert!(s.accept_auth(Reply::Received { status: 201, content: "new".to_string() }).is_ok());
    assert_eq!(s.token(), Some("new".to_string()));
    match s.begin() {
        TokenStep::Cached(t) => assert_eq!(t, "new"),
        other => panic!("expected the cached token, got {:?}", other),
    }
}

#[test]
fn failed_login_keeps_cache_and_reports_status() {
    let mut s = Simplenote::new("u", "p");
    let r = s.accept_auth(Reply::Received { status: 401, content: "denied".to_string() });
    assert_eq!(r, Err(Error::Authentication { status: 401 }));
    assert_eq!(s.token(), None);
    assert!(s.accept_auth(Reply::Received { status: 200, content: "t".to_string() }).is_ok());
    let r = s.accept_auth(Reply::Unreachable);
    assert_eq!(r, Err(Error::Network { op: Operation::Login }));
    assert_eq!(s.token(), Some("t".to_string()));
}
