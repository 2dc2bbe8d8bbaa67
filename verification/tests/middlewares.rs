use rust_tmpl::auth::{gen_auth_token, TokenType};
use rust_tmpl::middlewares::{authenticate, BasicLog};

#[test]
fn requests_need_a_bearer_token() {
    let e = authenticate(None, Some("Bearer x")).unwrap_err();
    assert_eq!((e.status, e.message.as_str()), (500, "Config not found in request data"));
    let e = authenticate(Some("secret"), None).unwrap_err();
    assert_eq!((e.status, e.message.as_str()), (401, "Missing Authorization header"));
    let e = authenticate(Some("secret"), Some("Basic dXNlcjpwYXNz")).unwrap_err();
    assert_eq!((e.status, e.message.as_str()), (401, "Authorization header must use the Bearer scheme"));
    let e = authenticate(Some("secret"), Some("Bearer not-a-token")).unwrap_err();
    assert_eq!(e.status, 401);
}

#[test]
fn a_valid_bearer_token_authenticates() {
    let token = gen_auth_token(7, TokenType::Access, 1, "secret").unwrap();
    let claims = authenticate(Some("secret"), Some(&format!("Bearer {token}"))).unwrap();
    assert_eq!(claims.sub, 7);
    assert_eq!(claims.aud, TokenType::Access);
    assert_eq!(authenticate(Some("other"), Some(&format!("Bearer {token}"))).unwrap_err().status, 401);
}

#[test]
fn basic_log_line() {
    assert_eq!(BasicLog::request_line("GET", "/healthz?x=1"), "[GET] /healthz?x=1");
}
