//! Authentication tokens: HS256-signed JWTs whose claims name a user (`sub`),
//! an expiry (`exp`, seconds since the Unix epoch) and the token's kind
//! (`aud`). The claims text is framed here; signing, signature checking and
//! expiry checking are done by `jsonwebtoken`; the clock is std's
//! `SystemTime`, and `chrono` does the date arithmetic.
use vstd::prelude::*;
use crate::text::{
    decimal_int, decimal_nat, lemma_decimal_int_injective, lemma_scan_decimal_rendering, lemma_split_before_comma,
    push_decimal_i64, push_decimal_u64, read_decimal_i64, same_text, scan_decimal,
};

verus! {

/// The kind of a token, carried in its `aud` claim.
#[derive(PartialEq, Eq, Structural, Debug, Clone, Copy)]
pub enum TokenType {
    Access,
    Refresh,
}

/// The `aud` text of a token kind (snake case).
pub open spec fn token_type_name(t: TokenType) -> Seq<char> {
    match t {
        TokenType::Access => "access"@,
        TokenType::Refresh => "refresh"@,
    }
}

impl TokenType {
    /// The name the kind is written as in a token's `aud` claim.
    pub fn name(&self) -> (r: &'static str)
        ensures
            r@ == token_type_name(*self),
    {
        match self {
            TokenType::Access => "access",
            TokenType::Refresh => "refresh",
        }
    }
}

/// The claims of a token.
#[derive(PartialEq, Eq, Structural, Debug, Clone, Copy)]
pub struct Claims {
    /// The user the token was issued to.
    pub sub: i64,
    /// When the token expires, in whole seconds since the Unix epoch.
    pub exp: i64,
    /// The kind of the token.
    pub aud: TokenType,
}

/// The JSON text of a token's claims: an object with the fields `sub`, `exp`
/// and `aud` in this order, integers in decimal, no white space.
pub open spec fn claims_json(c: Claims) -> Seq<char> {
    "{\"sub\":"@ + decimal_int(c.sub as int) + ",\"exp\":"@ + decimal_int(c.exp as int)
        + ",\"aud\":\""@ + token_type_name(c.aud) + "\"}"@
}

impl Claims {
    /// The claims as the JSON text that a token carries.
    pub fn to_json(&self) -> (r: String)
        ensures
            r@ == claims_json(*self),
    {
        let mut r = String::from_str("{\"sub\":");
        push_decimal_i64(&mut r, self.sub);
        r.append(",\"exp\":");
        push_decimal_i64(&mut r, self.exp);
        r.append(",\"aud\":\"");
        r.append(self.aud.name());
        r.append("\"}");
        r
    }
}

/// An instant in UTC: whole seconds since the Unix epoch and the nanoseconds
/// past that second.
#[derive(PartialEq, Eq, Structural, Debug, Clone, Copy)]
pub struct UtcInstant {
    pub secs: i64,
    pub nanos: u32,
}

/// The token `jsonwebtoken::encode` makes from claims text with the default
/// header (HS256) and an HMAC key made from `secret`.
pub uninterp spec fn hs256_token(claims_json: Seq<char>, secret: Seq<char>) -> Seq<char>;

/// The claims text that `jsonwebtoken::decode` finds in `token` when its HS256
/// signature checks out under `secret`; `None` when it does not, or when the
/// token is not made of a header, claims and signature.
pub uninterp spec fn hs256_token_claims(token: Seq<char>, secret: Seq<char>) -> Option<Seq<char>>;

/// The most hours a token may live: `chrono::TimeDelta::hours` panics beyond
/// this (its range is `i64::MAX` milliseconds).
pub const MAX_TOKEN_HOURS: u64 = 2_562_047_788_015;

/// The timestamp of chrono's earliest instant, `DateTime::<Utc>::MIN_UTC`
/// (January 1, 262144 BCE, 00:00:00).
pub const MIN_UTC_TIMESTAMP: i64 = -8_334_601_228_800;

/// The timestamp of chrono's latest instant, `DateTime::<Utc>::MAX_UTC`
/// (December 31, 262142 CE, 23:59:59).
pub const MAX_UTC_TIMESTAMP: i64 = 8_210_266_876_799;

/// A timestamp of an instant chrono can represent.
pub open spec fn is_utc_timestamp(secs: int) -> bool {
    MIN_UTC_TIMESTAMP <= secs <= MAX_UTC_TIMESTAMP
}

/// Calls `std::time::SystemTime::now()` and takes its distance after
/// `UNIX_EPOCH` (`duration_since`) in whole seconds and nanoseconds; `None`
/// when the clock reads before the epoch. What time it is is not stated; the
/// nanoseconds are below one second, as `Duration::subsec_nanos` documents.
#[verifier::external_body]
fn system_clock() -> (r: Option<(u64, u32)>)
    ensures
        r matches Some((_, nanos)) ==> nanos < 1_000_000_000,
{
    std::time::SystemTime::now().duration_since(std::time::UNIX_EPOCH).ok().map(
        |d| (d.as_secs(), d.subsec_nanos()),
    )
}

/// The current instant from the system clock, or `None` when the clock reads
/// before the Unix epoch or past chrono's last instant.
fn utc_now() -> (r: Option<UtcInstant>)
    ensures
        r matches Some(t) ==> is_utc_timestamp(t.secs as int) && t.nanos < 1_000_000_000,
{
    match system_clock() {
        Some((secs, nanos)) => {
            if secs <= MAX_UTC_TIMESTAMP as u64 {
                Some(UtcInstant { secs: secs as i64, nanos })
            } else {
                None
            }
        },
        None => None,
    }
}

/// Calls `chrono::DateTime::<Utc>::checked_add_signed` on the instant `at`
/// with `TimeDelta::hours(hours)`, and takes the timestamp of the result.
/// States that the result, when there is one, lies exactly `hours` hours
/// after `at`, and that there is one exactly when both `at` and the sum lie
/// in chrono's range of instants: `from_timestamp` accepts exactly the
/// timestamps of dates from `NaiveDate::MIN` to `NaiveDate::MAX`, and
/// `checked_add_signed` adds the whole seconds (no leap second is involved,
/// as the nanoseconds are below one second) and fails exactly when the date
/// leaves that range.
#[verifier::external_body]
fn checked_add_hours(at: UtcInstant, hours: i64) -> (r: Option<i64>)
    requires
        at.nanos < 1_000_000_000,
        0 <= hours <= MAX_TOKEN_HOURS,
    ensures
        r matches Some(e) ==> e == at.secs + 3600 * hours,
        r is Some <==> (is_utc_timestamp(at.secs as int) && is_utc_timestamp(at.secs + 3600 * hours)),
{
    chrono::DateTime::from_timestamp(at.secs, at.nanos)?.checked_add_signed(
        chrono::TimeDelta::hours(hours),
    ).map(|t| t.timestamp())
}

/// Calls `jsonwebtoken::encode` with the default header (HS256), the claims
/// text as a raw JSON value and an HMAC key from `secret`. States that a
/// token it returns is `hs256_token` of its arguments, and that decoding that
/// token with the same secret finds the same claims text: `decode` checks the
/// signature `encode` made over the same header and claims parts, and the
/// claims part is the text itself, base64url-encoded (`RawValue` keeps the
/// text as it is, as a claims text has no surrounding white space to trim).
/// The token is not empty: it is the header and claims parts and the
/// signature, joined by dots. It does not fail: the text is JSON, which
/// `RawValue::from_string` accepts, the default header's HS256 matches the
/// HMAC key, and HMAC signing cannot fail.
#[verifier::external_body]
fn encode_hs256(claims_json: String, secret: &str) -> (r: Result<String, String>)
    requires
        is_claims_text(claims_json@),
    ensures
        r matches Ok(t) ==> t@ == hs256_token(claims_json@, secret@) && hs256_token_claims(
            t@,
            secret@,
        ) == Some(claims_json@) && t@.len() > 0,
        r is Ok,
{
    let raw = serde_json::value::RawValue::from_string(claims_json).map_err(|e| e.to_string())?;
    jsonwebtoken::encode(
        &jsonwebtoken::Header::default(),
        &raw,
        &jsonwebtoken::EncodingKey::from_secret(secret.as_bytes()),
    ).map_err(|e| e.to_string())
}

/// Calls `jsonwebtoken::decode` for an HS256 token with a key made from
/// `secret` and the default validation (signature, and a required `exp`
/// against the current time with 60 s of leeway), with the audience check
/// switched off: this service's tokens name their kind in `aud`, not a
/// recipient. The claims come back as their JSON text, an error as its
/// message. States that accepted claims are the ones the signature covers,
/// and that a token whose signature does not check out is refused. Whether
/// a well-signed token is accepted depends on the clock and is not stated.
/// Of a token that `encode` made from a claims text with the same secret,
/// it is stated how `decode` can refuse it: its header, signature and JSON
/// check out, so only the validation of `exp` remains, which reads `exp` as
/// a `u64`. A negative `exp` does not read as one, and the token is refused
/// with `Missing required claim: exp`; otherwise it is refused only as
/// `ExpiredSignature`. `decode` reads the system clock and panics when it
/// reads before the Unix epoch, or (with overflow checks on) less than the
/// 60 s of leeway after it; its caller reads the clock first and does not
/// call it then.
#[verifier::external_body]
fn decode_hs256(token: &str, secret: &str) -> (r: Result<String, String>)
    ensures
        r matches Ok(c) ==> hs256_token_claims(token@, secret@) == Some(c@),
        hs256_token_claims(token@, secret@) is None ==> r is Err,
        forall|c: Claims| #[trigger] hs256_token(claims_json(c), secret@) == token@ ==> match r {
            Ok(text) => text@ == claims_json(c) && c.exp >= 0,
            Err(m) => m@ == decoder_refusal(c),
        },
{
    let mut validation = jsonwebtoken::Validation::default();
    validation.validate_aud = false;
    jsonwebtoken::decode::<Box<serde_json::value::RawValue>>(
        token,
        &jsonwebtoken::DecodingKey::from_secret(secret.as_bytes()),
        &validation,
    ).map(|data| data.claims.get().to_string()).map_err(|e| e.to_string())
}

/// The message with which `jsonwebtoken::decode` refuses a well-signed
/// token whose claims text is that of `c`: an `exp` that is not a `u64`
/// counts as missing; any other is refused only as expired.
pub open spec fn decoder_refusal(c: Claims) -> Seq<char> {
    if c.exp < 0 {
        "Missing required claim: exp"@
    } else {
        "ExpiredSignature"@
    }
}

/// How parsing may answer a token issued for the claims `c` with the secret
/// it is checked against: with exactly `c`; or refused with 401, as
/// [`decoder_refusal`] says or, for an expiry chrono cannot represent, with
/// [`illegal_expiry_message`]; or with 500 while the clock is not set.
pub open spec fn answers_issued_token(c: Claims, r: Result<Claims, HttpError>) -> bool {
    match r {
        Ok(parsed) => parsed == c,
        Err(e) => {
            ||| e.status == INTERNAL_SERVER_ERROR && e.message@ == unset_clock_message()
            ||| e.status == UNAUTHORIZED && e.message@ == decoder_refusal(c)
            ||| e.status == UNAUTHORIZED && !is_utc_timestamp(c.exp as int) && e.message@
                == illegal_expiry_message(c)
        },
    }
}

/// `s` is the claims text of some claims.
pub open spec fn is_claims_text(s: Seq<char>) -> bool {
    exists|c: Claims| #[trigger] claims_json(c) == s
}

/// The token that carries `claims`, signed with `secret`.
pub open spec fn spec_auth_token(claims: Claims, secret: Seq<char>) -> Seq<char> {
    hs256_token(claims_json(claims), secret)
}

/// `token` is the token for `claims` signed with `secret`, and decoding it
/// with `secret` finds those claims.
pub open spec fn token_carries(token: Seq<char>, secret: Seq<char>, claims: Claims) -> bool {
    &&& token == spec_auth_token(claims, secret)
    &&& hs256_token_claims(token, secret) == Some(claims_json(claims))
}

/// What issuing a token at `issued_at` gives: a token exactly when both the
/// issue time and the expiry `exp_hours` hours later are instants chrono
/// represents, and then the token for the claims with that expiry.
pub open spec fn issued_token(
    r: Option<String>,
    user_id: i64,
    token_type: TokenType,
    exp_hours: u64,
    secret: Seq<char>,
    issued_at: UtcInstant,
) -> bool {
    let exp = issued_at.secs + 3600 * exp_hours;
    &&& r is Some <==> is_utc_timestamp(issued_at.secs as int) && is_utc_timestamp(exp)
    &&& r matches Some(t) ==> t@.len() > 0 && token_carries(
        t@,
        secret,
        Claims { sub: user_id, exp: exp as i64, aud: token_type },
    )
}

/// Issues a token for `user_id` of kind `token_type` at the instant
/// `issued_at`, expiring `exp_hours` hours later, signed with `secret`.
/// `None` exactly when the issue time or the expiry lies outside chrono's
/// range of instants.
pub fn issue_auth_token(
    user_id: i64,
    token_type: TokenType,
    exp_hours: u64,
    secret: &str,
    issued_at: UtcInstant,
) -> (r: Option<String>)
    requires
        exp_hours <= MAX_TOKEN_HOURS,
        issued_at.nanos < 1_000_000_000,
    ensures
        issued_token(r, user_id, token_type, exp_hours, secret@, issued_at),
{
    let expiration = match checked_add_hours(issued_at, exp_hours as i64) {
        Some(e) => e,
        None => return None,
    };
    let claims = Claims { sub: user_id, exp: expiration, aud: token_type };
    assert(is_claims_text(claims_json(claims)));
    match encode_hs256(claims.to_json(), secret) {
        Ok(token) => Some(token),
        Err(_) => None,
    }
}

/// `token` is a token of kind `token_type` for `user_id`, signed with
/// `secret`, with some expiry.
pub open spec fn token_issued_to(
    token: Seq<char>,
    secret: Seq<char>,
    user_id: i64,
    token_type: TokenType,
) -> bool {
    exists|exp: i64|
        #[trigger] token_carries(token, secret, Claims { sub: user_id, exp: exp, aud: token_type })
}

/// Issues a token for `user_id` of kind `token_type`, expiring `exp_hours`
/// hours from now, signed with `secret`: what [`issue_auth_token`] gives at
/// the instant the clock reads. `None` when the clock reads before the Unix
/// epoch or past chrono's last instant, or the expiry lies past that
/// instant.
pub fn gen_auth_token(user_id: i64, token_type: TokenType, exp_hours: u64, secret: &str) -> (r:
    Option<String>)
    requires
        exp_hours <= MAX_TOKEN_HOURS,
    ensures
        r is None || exists|now: UtcInstant|
            is_utc_timestamp(now.secs as int) && #[trigger] issued_token(
                r,
                user_id,
                token_type,
                exp_hours,
                secret@,
                now,
            ),
        r matches Some(t) ==> token_issued_to(t@, secret@, user_id, token_type),
{
    let now = match utc_now() {
        Some(now) => now,
        None => return None,
    };
    let r = issue_auth_token(user_id, token_type, exp_hours, secret, now);
    assert(issued_token(r, user_id, token_type, exp_hours, secret@, now));
    proof {
        if r is Some {
            let exp = (now.secs + 3600 * exp_hours) as i64;
            let claims = Claims { sub: user_id, exp: exp, aud: token_type };
            assert(token_carries(r->0@, secret@, claims));
        }
    }
    r
}

/// An error answered to an HTTP request: a status code and a message.
#[derive(Debug)]
pub struct HttpError {
    pub status: u16,
    pub message: String,
}

/// The status with which a request bearing a bad token is refused.
pub const UNAUTHORIZED: u16 = 401;

/// The status with which a request is answered when the server cannot serve
/// it.
pub const INTERNAL_SERVER_ERROR: u16 = 500;

/// The message with which accepted claims that are not the claims text of
/// any claims are refused.
pub open spec fn foreign_claims_message() -> Seq<char> {
    "JSON error: claims are not in the form this service issues"@
}

/// The message with which a token is refused while the system clock reads
/// before the Unix epoch or within its first minute.
pub open spec fn unset_clock_message() -> Seq<char> {
    "system clock is not set"@
}

/// The claims text up to the end of the expiry's digits.
pub open spec fn claims_json_through_exp(c: Claims) -> Seq<char> {
    "{\"sub\":"@ + decimal_int(c.sub as int) + ",\"exp\":"@ + decimal_int(c.exp as int)
}

/// The message with which claims whose expiry is not a timestamp chrono can
/// represent are refused, as reading them into a `DateTime<Utc>` reports it:
/// the timestamp, and the line and column where the reader stood after its
/// digits.
pub open spec fn illegal_expiry_message(c: Claims) -> Seq<char> {
    "JSON error: value is not a legal timestamp: "@ + decimal_int(c.exp as int)
        + " at line 1 column "@ + decimal_nat(claims_json_through_exp(c).len())
}

/// The message of [`illegal_expiry_message`].
fn illegal_expiry_error(c: Claims) -> (r: String)
    ensures
        r@ == illegal_expiry_message(c),
{
    let mut through_exp = String::from_str("{\"sub\":");
    push_decimal_i64(&mut through_exp, c.sub);
    through_exp.append(",\"exp\":");
    push_decimal_i64(&mut through_exp, c.exp);
    let column = through_exp.as_str().unicode_len();
    let mut message = String::from_str("JSON error: value is not a legal timestamp: ");
    push_decimal_i64(&mut message, c.exp);
    message.append(" at line 1 column ");
    push_decimal_u64(&mut message, column as u64);
    message
}

/// The answer to a token, given what `jsonwebtoken::decode` made of it: the
/// claims whose text the decoded claims are, when their expiry is an instant
/// chrono can represent; 401 with [`illegal_expiry_message`] when it is not;
/// 401 with the decoder's message; or 401 when the decoded claims are not
/// the claims text of any claims.
pub fn accept_decoded_claims(decoded: Result<String, String>) -> (r: Result<Claims, HttpError>)
    ensures
        match decoded {
            Ok(text) => if is_claims_text(text@) {
                forall|c: Claims| #[trigger] claims_json(c) == text@ ==> if is_utc_timestamp(
                    c.exp as int,
                ) {
                    r matches Ok(parsed) && parsed == c
                } else {
                    r matches Err(e) && e.status == UNAUTHORIZED && e.message@
                        == illegal_expiry_message(c)
                }
            } else {
                r matches Err(e) && e.status == UNAUTHORIZED && e.message@ == foreign_claims_message()
            },
            Err(m) => r matches Err(e) && e.status == UNAUTHORIZED && e.message@ == m@,
        },
        r matches Ok(c) ==> decoded matches Ok(text) && claims_json(c) == text@
            && is_utc_timestamp(c.exp as int),
{
    match decoded {
        Ok(text) => match Claims::from_json(text.as_str()) {
            Some(c) => {
                proof {
                    assert forall|other: Claims| #[trigger] claims_json(other) == text@ implies other
                        == c by {
                        claims_json_is_unambiguous(other, c);
                    }
                }
                if c.exp < MIN_UTC_TIMESTAMP || c.exp > MAX_UTC_TIMESTAMP {
                    Err(HttpError { status: UNAUTHORIZED, message: illegal_expiry_error(c) })
                } else {
                    Ok(c)
                }
            },
            None => Err(
                HttpError {
                    status: UNAUTHORIZED,
                    message: String::from_str(
                        "JSON error: claims are not in the form this service issues",
                    ),
                },
            ),
        },
        Err(message) => Err(HttpError { status: UNAUTHORIZED, message }),
    }
}

/// Checks `token` against `secret` and returns its claims. A token is
/// accepted only if its signature checks out, its claims are a claims text
/// whose expiry is an instant chrono can represent, and it has not expired
/// (with 60 s of leeway); the audience is not checked.
/// A refused token is answered with 401 and `jsonwebtoken`'s message. While
/// the system clock reads before the Unix epoch or within its first minute
/// no token is checked, and the answer is 500.
pub fn parse_auth_token(token: &str, secret: &str) -> (r: Result<Claims, HttpError>)
    ensures
        r matches Ok(c) ==> hs256_token_claims(token@, secret@) == Some(claims_json(c))
            && is_utc_timestamp(c.exp as int),
        r matches Err(e) ==> e.status == UNAUTHORIZED || (e.status == INTERNAL_SERVER_ERROR
            && e.message@ == unset_clock_message()),
        hs256_token_claims(token@, secret@) is None ==> r is Err,
        forall|c: Claims| #[trigger] spec_auth_token(c, secret@) == token@ ==> answers_issued_token(
            c,
            r,
        ),
{
    let clock_is_set = match system_clock() {
        Some((secs, _)) => secs >= 60,
        None => false,
    };
    if !clock_is_set {
        return Err(
            HttpError {
                status: INTERNAL_SERVER_ERROR,
                message: String::from_str("system clock is not set"),
            },
        );
    }
    let decoded = decode_hs256(token, secret);
    let ghost seen = decoded;
    let r = accept_decoded_claims(decoded);
    proof {
        if r is Ok {
            assert(seen is Ok);
        }
        assert forall|c: Claims| #[trigger] spec_auth_token(c, secret@) == token@ implies answers_issued_token(
            c,
            r,
        ) by {
            assert(hs256_token(claims_json(c), secret@) == token@);
            if let Ok(text) = seen {
                assert(claims_json(c) == text@);
                assert(is_claims_text(text@));
            }
        }
    }
    r
}

/// A token issued at the instant `issued_at` for `user_id`, of kind
/// `token_type`, expiring `exp_hours` hours later, and then checked with the
/// secret it was signed with, is read back as exactly those claims: that
/// user, that kind, and the expiry `exp_hours` hours after the issue
/// instant. It is refused only as expired (or, issued before 1970, for an
/// expiry that does not read as a `u64`), or with 500 while the clock is
/// not set. `answer` is any answer [`parse_auth_token`] may give the token.
pub proof fn issued_token_parses_back(
    token: Seq<char>,
    secret: Seq<char>,
    user_id: i64,
    token_type: TokenType,
    exp_hours: u64,
    issued_at: UtcInstant,
    answer: Result<Claims, HttpError>,
)
    requires
        exists|t: String| t@ == token && #[trigger] issued_token(
            Some(t),
            user_id,
            token_type,
            exp_hours,
            secret,
            issued_at,
        ),
        forall|c: Claims| #[trigger] spec_auth_token(c, secret) == token ==> answers_issued_token(
            c,
            answer,
        ),
    ensures
        answer matches Ok(c) ==> c.sub == user_id && c.aud == token_type && c.exp == issued_at.secs
            + 3600 * exp_hours,
        answer matches Err(e) ==> (e.status == INTERNAL_SERVER_ERROR && e.message@
            == "system clock is not set"@) || (e.status == UNAUTHORIZED && e.message@ == (if issued_at.secs
            + 3600 * exp_hours >= 0 {
            "ExpiredSignature"@
        } else {
            "Missing required claim: exp"@
        })),
{
    let t = choose|t: String| t@ == token && #[trigger] issued_token(
        Some(t),
        user_id,
        token_type,
        exp_hours,
        secret,
        issued_at,
    );
    let exp = issued_at.secs + 3600 * exp_hours;
    let c = Claims { sub: user_id, exp: exp as i64, aud: token_type };
    assert(spec_auth_token(c, secret) == token);
    assert(answers_issued_token(c, answer));
}

/// A token accepted with the secret it was issued with gives back the very
/// claims it was issued for.
pub proof fn parsed_claims_are_issued_claims(
    token: Seq<char>,
    secret: Seq<char>,
    issued: Claims,
    parsed: Claims,
)
    requires
        token_carries(token, secret, issued),
        hs256_token_claims(token, secret) == Some(claims_json(parsed)),
    ensures
        parsed == issued,
{
    claims_json_is_unambiguous(parsed, issued);
}


/// The part of the claims text from the `aud` field on.
pub open spec fn audience_tail(aud: TokenType) -> Seq<char> {
    ",\"aud\":\""@ + token_type_name(aud) + "\"}"@
}

/// The part of the claims text from the `exp` field on.
pub open spec fn expiry_tail(exp: i64, aud: TokenType) -> Seq<char> {
    ",\"exp\":"@ + (decimal_int(exp as int) + audience_tail(aud))
}

proof fn lemma_audience_tail(a: TokenType, b: TokenType)
    requires
        audience_tail(a) == audience_tail(b),
    ensures
        a == b,
{
    reveal_strlit("access");
    reveal_strlit("refresh");
    assert(audience_tail(a).len() == audience_tail(b).len());
    assert(audience_tail(a).len() == ",\"aud\":\""@.len() + token_type_name(a).len() + "\"}"@.len());
    assert(audience_tail(b).len() == ",\"aud\":\""@.len() + token_type_name(b).len() + "\"}"@.len());
    assert(token_type_name(a).len() == token_type_name(b).len());
    assert("access"@.len() == 6);
    assert("refresh"@.len() == 7);
}

proof fn lemma_expiry_tail(a: i64, aa: TokenType, b: i64, ab: TokenType)
    requires
        expiry_tail(a, aa) == expiry_tail(b, ab),
    ensures
        a == b,
        aa == ab,
{
    reveal_strlit(",\"exp\":");
    reveal_strlit(",\"aud\":\"");
    let ua = audience_tail(aa);
    let ub = audience_tail(ab);
    assert(ua[0] == ',');
    assert(ub[0] == ',');
    lemma_decimal_int_injective(a as int, b as int);
    lemma_decimal_int_injective(b as int, a as int);
    assert(decimal_int(a as int) + ua =~= expiry_tail(a, aa).skip(",\"exp\":"@.len() as int));
    assert(decimal_int(b as int) + ub =~= expiry_tail(b, ab).skip(",\"exp\":"@.len() as int));
    lemma_split_before_comma(decimal_int(a as int), ua, decimal_int(b as int), ub);
    lemma_audience_tail(aa, ab);
}

/// The claims text of a token determines the claims: different claims are
/// never written as the same text.
#[verifier::rlimit(40)]
#[verifier::spinoff_prover]
pub proof fn claims_json_is_unambiguous(a: Claims, b: Claims)
    requires
        claims_json(a) == claims_json(b),
    ensures
        a == b,
{
    reveal_strlit("{\"sub\":");
    reveal_strlit(",\"exp\":");
    let l1 = "{\"sub\":"@;
    let ta = expiry_tail(a.exp, a.aud);
    let tb = expiry_tail(b.exp, b.aud);
    assert(claims_json(a) =~= l1 + (decimal_int(a.sub as int) + ta));
    assert(claims_json(b) =~= l1 + (decimal_int(b.sub as int) + tb));
    assert(decimal_int(a.sub as int) + ta =~= claims_json(a).skip(l1.len() as int));
    assert(decimal_int(b.sub as int) + tb =~= claims_json(b).skip(l1.len() as int));
    assert(ta[0] == ',');
    assert(tb[0] == ',');
    lemma_decimal_int_injective(a.sub as int, b.sub as int);
    lemma_decimal_int_injective(b.sub as int, a.sub as int);
    lemma_split_before_comma(decimal_int(a.sub as int), ta, decimal_int(b.sub as int), tb);
    lemma_expiry_tail(a.exp, a.aud, b.exp, b.aud);
}


/// Where the parts of a claims text lie: the subject's digits after the
/// 7-character `{"sub":`, the expiry's digits after the next 7 characters
/// `,"exp":`, and the kind's first letter 8 characters after those.
proof fn lemma_claims_text_layout(c: Claims)
    ensures
        ({
            let s = claims_json(c);
            let i: int = 7 + decimal_int(c.sub as int).len() as int;
            let j: int = i + 7 + decimal_int(c.exp as int).len();
            &&& scan_decimal(s, 7) == Some((c.sub, i))
            &&& i + 7 <= s.len()
            &&& scan_decimal(s, i + 7) == Some((c.exp, j))
            &&& j + 8 < s.len()
            &&& s[j + 8] == (if c.aud == TokenType::Refresh { 'r' } else { 'a' })
        }),
{
    reveal_strlit("{\"sub\":");
    reveal_strlit(",\"exp\":");
    reveal_strlit(",\"aud\":\"");
    reveal_strlit("\"}");
    reveal_strlit("access");
    reveal_strlit("refresh");
    let s = claims_json(c);
    let d1 = decimal_int(c.sub as int);
    let d2 = decimal_int(c.exp as int);
    let et = expiry_tail(c.exp, c.aud);
    let at = audience_tail(c.aud);
    assert(s =~= "{\"sub\":"@ + (d1 + et));
    assert(s.skip(7) =~= d1 + et);
    assert(et[0] == ',');
    lemma_scan_decimal_rendering(s, 7, c.sub, et);
    let i: int = 7 + d1.len() as int;
    assert(s.skip(i + 7) =~= d2 + at);
    assert(at[0] == ',');
    lemma_scan_decimal_rendering(s, i + 7, c.exp, at);
    let j: int = i + 7 + d2.len();
    assert(s[j + 8] == at[8]);
}

impl Claims {
    /// Reads claims back from their claims text: the claims whose text
    /// `text` is, or `None` when it is the text of no claims.
    pub fn from_json(text: &str) -> (r: Option<Claims>)
        ensures
            match r {
                Some(c) => claims_json(c) == text@,
                None => !is_claims_text(text@),
            },
    {
        let n = text.unicode_len();
        proof {
            if is_claims_text(text@) {
                let c0 = choose|c: Claims| #[trigger] claims_json(c) == text@;
                lemma_claims_text_layout(c0);
            }
        }
        if n < 7 {
            return None;
        }
        let (sub, i) = match read_decimal_i64(text, 7) {
            Some(found) => found,
            None => return None,
        };
        if i > n - 7 {
            return None;
        }
        let (exp, j) = match read_decimal_i64(text, i + 7) {
            Some(found) => found,
            None => return None,
        };
        let aud = if j < n && n - j > 8 && text.get_char(j + 8) == 'r' {
            TokenType::Refresh
        } else {
            TokenType::Access
        };
        let c = Claims { sub, exp, aud };
        let rendered = c.to_json();
        proof {
            if is_claims_text(text@) {
                let c0 = choose|c: Claims| #[trigger] claims_json(c) == text@;
                assert(c0 == c);
            }
        }
        if same_text(rendered.as_str(), text) {
            Some(c)
        } else {
            None
        }
    }
}
} // verus!
