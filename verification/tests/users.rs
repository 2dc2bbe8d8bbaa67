use rust_tmpl::users::{
    login, me, register, register_completed, CreateUserRequest, DatabaseError, LoginApiResponse,
    LoginRequest, MeResponse, RegisterResponse, RegisterStep, StoredCredentials, UserRow,
};

fn created_at() -> chrono::NaiveDateTime {
    chrono::DateTime::from_timestamp(1_700_000_000, 0).unwrap().naive_utc()
}

fn request(email: &str, password: &str) -> CreateUserRequest {
    CreateUserRequest { email: email.to_string(), password: password.to_string() }
}

fn bad_request_message(step: RegisterStep) -> String {
    match step {
        RegisterStep::Respond(RegisterResponse::BadRequest(e)) => e.message,
        _ => panic!("expected a bad request"),
    }
}

#[test]
fn registration_requires_an_email_and_six_character_password() {
    let m = "Invalid email or password (min 6 characters)";
    assert_eq!(bad_request_message(register(request("", "password123"))), m);
    assert_eq!(bad_request_message(register(request(" \t\u{3000}", "password123"))), m);
    assert_eq!(bad_request_message(register(request("a@b.c", "12345"))), m);
    // the length is counted in characters, not bytes
    assert_eq!(bad_request_message(register(request("a@b.c", "ééé"))), m);
    assert!(matches!(register(request("a@b.c", "éééééé")), RegisterStep::Insert { .. }));
}

#[test]
fn registration_stores_a_bcrypt_hash_at_cost_twelve() {
    let hash = match register(request("a@b.c", "correct horse")) {
        RegisterStep::Insert { password_hash, .. } => password_hash,
        _ => panic!("expected an insert"),
    };
    assert_eq!(hash.len(), 60);
    assert!(hash.starts_with("$2b$12$"), "{hash}");
    assert!(bcrypt::verify("correct horse", &hash).unwrap());
    assert!(!bcrypt::verify("correct horsf", &hash).unwrap());
}

#[test]
fn registered_password_logs_in() {
    let step = register(request("test@example.com", "password123"));
    let (email, hash) = match step {
        RegisterStep::Insert { email, password_hash } => (email, password_hash),
        _ => panic!("expected an insert"),
    };
    assert_eq!(email, "test@example.com");
    assert_ne!(hash, "password123");
    assert!(bcrypt::verify("password123", &hash).unwrap());
    let stored = StoredCredentials { id: 1, email: email.clone(), password_hash: hash.clone(), created_at: created_at() };
    let req = LoginRequest { email: email.clone(), password: "password123".to_string() };
    let answer = login(&req, "test-secret-key-1234567890", Ok(Some(stored))).unwrap();
    assert_eq!(answer.status_code(), 200);
    match answer {
        LoginApiResponse::Success(ok) => {
            assert_eq!(ok.user.id, 1);
            assert_eq!(ok.user.email, "test@example.com");
            assert_eq!(ok.user.created_at, created_at());
            let before = chrono::Utc::now().timestamp();
            let claims = rust_tmpl::auth::parse_auth_token(&ok.token, "test-secret-key-1234567890").unwrap();
            assert_eq!(claims.sub, 1);
            assert_eq!(claims.aud, rust_tmpl::auth::TokenType::Access);
            assert!((claims.exp - (before + 24 * 3600)).abs() <= 5);
        }
        _ => panic!("expected a login"),
    }
    let wrong = LoginRequest { email, password: "password124".to_string() };
    let stored = StoredCredentials { id: 1, email: "test@example.com".into(), password_hash: hash, created_at: created_at() };
    let answer = login(&wrong, "k", Ok(Some(stored))).unwrap();
    assert_eq!(answer.status_code(), 401);
}

#[test]
fn login_answers_unknown_users_and_database_failures() {
    let req = LoginRequest { email: "nobody@example.com".into(), password: "whatever".into() };
    match login(&req, "k", Ok(None)).unwrap() {
        LoginApiResponse::Unauthorized(e) => assert_eq!(e.message, "Invalid email or password"),
        _ => panic!("expected unauthorized"),
    }
    let failure = DatabaseError { unique_violation: false, message: "disk I/O error".into() };
    let answer = login(&req, "k", Err(failure)).unwrap();
    assert_eq!(answer.status_code(), 500);
    match answer {
        LoginApiResponse::InternalServerError(e) => assert_eq!(e.message, "Database error: disk I/O error"),
        _ => panic!("expected a server error"),
    }
    let malformed = StoredCredentials { id: 2, email: req.email.clone(), password_hash: "not-a-hash".into(), created_at: created_at() };
    assert_eq!(login(&req, "k", Ok(Some(malformed))).unwrap().status_code(), 401);
}

#[test]
fn duplicate_email_is_a_conflict() {
    let row = UserRow { id: 9, email: "test@example.com".into(), created_at: created_at() };
    let created = register_completed(Ok(row));
    assert_eq!(created.status_code(), 201);
    match created {
        RegisterResponse::Created(u) => assert_eq!((u.id, u.email.as_str()), (9, "test@example.com")),
        _ => panic!("expected created"),
    }
    let dup = register_completed(Err(DatabaseError { unique_violation: true, message: "UNIQUE constraint failed: users.email".into() }));
    assert_eq!(dup.status_code(), 409);
    match dup {
        RegisterResponse::Conflict(e) => assert_eq!(e.message, "Email is already registered"),
        _ => panic!("expected conflict"),
    }
    let other = register_completed(Err(DatabaseError { unique_violation: false, message: "locked".into() }));
    assert_eq!(other.status_code(), 500);
    match other {
        RegisterResponse::InternalServerError(e) => assert_eq!(e.message, "Database error: locked"),
        _ => panic!("expected a server error"),
    }
}

#[test]
fn profile_answers() {
    let row = UserRow { id: 5, email: "me@example.com".into(), created_at: created_at() };
    match me(Ok(Some(row))) {
        MeResponse::Success(u) => assert_eq!((u.id, u.email.as_str()), (5, "me@example.com")),
        _ => panic!("expected the user"),
    }
    match me(Ok(None)) {
        MeResponse::Unauthorized(e) => assert_eq!(e.message, "User not found"),
        _ => panic!("expected unauthorized"),
    }
    assert_eq!(me(Err(DatabaseError { unique_violation: false, message: "x".into() })).status_code(), 500);
}

#[test]
fn user_flow_through_the_library() {
    let secret = "test-secret-key-1234567890";
    // 1. register
    let (email, hash) = match register(request("test@example.com", "password123")) {
        RegisterStep::Insert { email, password_hash } => (email, password_hash),
        _ => panic!("expected an insert"),
    };
    let created = register_completed(Ok(UserRow { id: 1, email: email.clone(), created_at: created_at() }));
    assert_eq!(created.status_code(), 201);
    // 2. the same email again is a conflict
    assert!(matches!(register(request("test@example.com", "password123")), RegisterStep::Insert { .. }));
    let dup = register_completed(Err(DatabaseError { unique_violation: true, message: "UNIQUE constraint failed: users.email".into() }));
    assert_eq!(dup.status_code(), 409);
    // 3. login
    let stored = StoredCredentials { id: 1, email: email.clone(), password_hash: hash, created_at: created_at() };
    let req = LoginRequest { email: email.clone(), password: "password123".into() };
    let token = match login(&req, secret, Ok(Some(stored))).unwrap() {
        LoginApiResponse::Success(ok) => {
            assert_eq!(ok.user.email, "test@example.com");
            ok.token
        }
        _ => panic!("expected a login"),
    };
    // 4. the profile, with the token as bearer
    assert!(!token.is_empty());
    let claims = rust_tmpl::middlewares::authenticate(Some(secret), Some(&format!("Bearer {token}"))).unwrap();
    assert_eq!(claims.sub, 1);
    assert_eq!(claims.aud, rust_tmpl::auth::TokenType::Access);
    let row = UserRow { id: claims.sub, email, created_at: created_at() };
    match me(Ok(Some(row))) {
        MeResponse::Success(u) => assert_eq!(u.email, "test@example.com"),
        _ => panic!("expected the user"),
    }
}
