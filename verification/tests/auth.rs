use rust_tmpl::auth::{
    accept_decoded_claims, gen_auth_token, issue_auth_token, parse_auth_token, Claims, TokenType, UtcInstant,
    MAX_UTC_TIMESTAMP, MIN_UTC_TIMESTAMP,
};

#[test]
fn claims_serialize_like_the_token_payload() {
    let c = Claims { sub: -12, exp: 1_700_000_000, aud: TokenType::Refresh };
    assert_eq!(c.to_json(), r#"{"sub":-12,"exp":1700000000,"aud":"refresh"}"#);
    let c = Claims { sub: i64::MIN, exp: i64::MAX, aud: TokenType::Access };
    assert_eq!(c.to_json(), format!(r#"{{"sub":{},"exp":{},"aud":"access"}}"#, i64::MIN, i64::MAX));
    assert_eq!(TokenType::Access.name(), "access");
    assert_eq!(TokenType::Refresh.name(), "refresh");
}

#[test]
fn issued_tokens_carry_their_claims() {
    let now = chrono::Utc::now().timestamp();
    let at = UtcInstant { secs: now, nanos: 5 };
    let token = issue_auth_token(42, TokenType::Access, 24, "test-secret-key-1234567890", at).unwrap();
    assert_eq!(token.split('.').count(), 3);
    let claims = parse_auth_token(&token, "test-secret-key-1234567890").unwrap();
    assert_eq!(claims, Claims { sub: 42, exp: now + 24 * 3600, aud: TokenType::Access });
}

#[test]
fn generated_tokens_expire_in_the_requested_hours() {
    let before = chrono::Utc::now().timestamp();
    let token = gen_auth_token(3, TokenType::Refresh, 2, "s").unwrap();
    let after = chrono::Utc::now().timestamp();
    let claims = parse_auth_token(&token, "s").unwrap();
    assert!(before + 7200 <= claims.exp && claims.exp <= after + 7200);
    assert_eq!(claims.sub, 3);
    assert_eq!(claims.aud, TokenType::Refresh);
}

#[test]
fn tokens_are_refused_with_another_secret_or_when_expired_or_malformed() {
    let token = gen_auth_token(1, TokenType::Access, 24, "right").unwrap();
    assert_eq!(parse_auth_token(&token, "wrong").unwrap_err().status, 401);
    let long_ago = UtcInstant { secs: 1_000_000_000, nanos: 0 };
    let expired = issue_auth_token(1, TokenType::Access, 1, "right", long_ago).unwrap();
    let e = parse_auth_token(&expired, "right").unwrap_err();
    assert_eq!(e.status, 401);
    assert_eq!(e.message, "ExpiredSignature");
    assert_eq!(parse_auth_token("abc", "right").unwrap_err().status, 401);
}

#[test]
fn unrepresentable_expiry_gives_no_token() {
    let near_end = UtcInstant { secs: 8_210_000_000_000, nanos: 0 };
    assert!(issue_auth_token(1, TokenType::Access, 24 * 365 * 10, "s", near_end).is_none());
}

#[test]
fn chrono_range_bounds_issuing() {
    assert_eq!(chrono::DateTime::<chrono::Utc>::MIN_UTC.timestamp(), MIN_UTC_TIMESTAMP);
    assert_eq!(chrono::DateTime::<chrono::Utc>::MAX_UTC.timestamp(), MAX_UTC_TIMESTAMP);
    let last = UtcInstant { secs: MAX_UTC_TIMESTAMP - 3600, nanos: 0 };
    assert!(issue_auth_token(1, TokenType::Access, 1, "s", last).is_some());
    assert!(issue_auth_token(1, TokenType::Access, 2, "s", last).is_none());
    let first = UtcInstant { secs: MIN_UTC_TIMESTAMP, nanos: 0 };
    assert!(issue_auth_token(1, TokenType::Access, 0, "s", first).is_some());
    let before = UtcInstant { secs: MIN_UTC_TIMESTAMP - 1, nanos: 0 };
    assert!(issue_auth_token(1, TokenType::Access, 5, "s", before).is_none());
    assert!(gen_auth_token(1, TokenType::Access, 0, "s").is_some());
}

#[test]
fn claims_read_back_from_their_text_only() {
    for c in [
        Claims { sub: 0, exp: 0, aud: TokenType::Access },
        Claims { sub: -12, exp: 1_700_000_000, aud: TokenType::Refresh },
        Claims { sub: i64::MIN, exp: i64::MAX, aud: TokenType::Access },
    ] {
        assert_eq!(Claims::from_json(&c.to_json()), Some(c));
    }
    for text in [
        "",
        "{}",
        r#"{"sub":1,"exp":2,"aud":"other"}"#,
        r#"{"exp":2,"sub":1,"aud":"access"}"#,
        r#"{"sub":01,"exp":2,"aud":"access"}"#,
        r#"{"sub":-0,"exp":2,"aud":"access"}"#,
        r#"{"sub":1, "exp":2,"aud":"access"}"#,
        r#"{"sub":9223372036854775808,"exp":2,"aud":"access"}"#,
        r#"{"sub":1,"exp":2,"aud":"access"} "#,
    ] {
        assert_eq!(Claims::from_json(text), None, "{text}");
    }
}

#[test]
fn decoded_claims_are_accepted_or_refused() {
    let c = Claims { sub: 5, exp: 99, aud: TokenType::Refresh };
    assert_eq!(accept_decoded_claims(Ok(c.to_json())).unwrap(), c);
    let e = accept_decoded_claims(Ok(r#"{"sub":"x"}"#.to_string())).unwrap_err();
    assert_eq!((e.status, e.message.as_str()), (401, "JSON error: claims are not in the form this service issues"));
    let e = accept_decoded_claims(Err("InvalidSignature".to_string())).unwrap_err();
    assert_eq!((e.status, e.message.as_str()), (401, "InvalidSignature"));
}

#[test]
fn expiries_past_chrono_range_are_refused() {
    let last = Claims { sub: 5, exp: 8_210_266_876_799, aud: TokenType::Access };
    assert_eq!(accept_decoded_claims(Ok(last.to_json())).unwrap(), last);
    let first = Claims { sub: 5, exp: -8_334_601_228_800, aud: TokenType::Access };
    assert_eq!(accept_decoded_claims(Ok(first.to_json())).unwrap(), first);
    let late = Claims { sub: 5, exp: 8_210_266_876_800, aud: TokenType::Access };
    let e = accept_decoded_claims(Ok(late.to_json())).unwrap_err();
    assert_eq!(
        (e.status, e.message.as_str()),
        (401, "JSON error: value is not a legal timestamp: 8210266876800 at line 1 column 28")
    );
    let early = Claims { sub: -12, exp: -8_334_601_228_801, aud: TokenType::Refresh };
    let e = accept_decoded_claims(Ok(early.to_json())).unwrap_err();
    assert_eq!(
        (e.status, e.message.as_str()),
        (401, "JSON error: value is not a legal timestamp: -8334601228801 at line 1 column 31")
    );
}
