//! Per-request decisions of the HTTP middlewares: authenticating a request by
//! its bearer token, and the line the basic request log prints.
use vstd::prelude::*;
use crate::auth::{
    answers_issued_token, claims_json, hs256_token_claims, parse_auth_token, spec_auth_token,
    unset_clock_message, Claims, HttpError, INTERNAL_SERVER_ERROR, UNAUTHORIZED,
};
use crate::text::{has_prefix, strip_prefix};

verus! {

/// The scheme prefix of a bearer `Authorization` header.
pub open spec fn bearer_prefix() -> Seq<char> {
    "Bearer "@
}

/// Authenticates a request from the server's JWT secret (absent when the
/// configuration was not installed) and the request's `Authorization`
/// header (absent when missing, or when `HeaderValue::to_str` refuses it
/// because it holds other than visible ASCII). On success, returns the
/// claims of the bearer token, as [`parse_auth_token`] checks it.
pub fn authenticate(jwt_secret: Option<&str>, authorization: Option<&str>) -> (r: Result<
    Claims,
    HttpError,
>)
    ensures
        match jwt_secret {
            None => r matches Err(e) && e.status == INTERNAL_SERVER_ERROR && e.message@
                == "Config not found in request data"@,
            Some(secret) => match authorization {
                None => r matches Err(e) && e.status == UNAUTHORIZED && e.message@
                    == "Missing Authorization header"@,
                Some(header) => if has_prefix(header@, bearer_prefix()) {
                    let token = header@.skip(bearer_prefix().len() as int);
                    &&& r matches Ok(c) ==> hs256_token_claims(token, secret@) == Some(claims_json(c))
                    &&& r matches Err(e) ==> e.status == UNAUTHORIZED || (e.status
                        == INTERNAL_SERVER_ERROR && e.message@ == unset_clock_message())
                    &&& hs256_token_claims(token, secret@) is None ==> r is Err
                    &&& forall|c: Claims| #[trigger] spec_auth_token(c, secret@) == token
                        ==> answers_issued_token(c, r)
                } else {
                    r matches Err(e) && e.status == UNAUTHORIZED && e.message@
                        == "Authorization header must use the Bearer scheme"@
                },
            },
        },
{
    let secret = match jwt_secret {
        Some(s) => s,
        None => {
            return Err(
                HttpError {
                    status: INTERNAL_SERVER_ERROR,
                    message: String::from_str("Config not found in request data"),
                },
            );
        },
    };
    let header = match authorization {
        Some(h) => h,
        None => {
            return Err(
                HttpError {
                    status: UNAUTHORIZED,
                    message: String::from_str("Missing Authorization header"),
                },
            );
        },
    };
    let token = match strip_prefix(header, "Bearer ") {
        Some(t) => t,
        None => {
            return Err(
                HttpError {
                    status: UNAUTHORIZED,
                    message: String::from_str("Authorization header must use the Bearer scheme"),
                },
            );
        },
    };
    parse_auth_token(token, secret)
}

/// The basic request log.
pub struct BasicLog;

impl BasicLog {
    /// The line logged for a request: its method in brackets, then its URI.
    pub fn request_line(method: &str, uri: &str) -> (r: String)
        ensures
            r@ == "["@ + method@ + "] "@ + uri@,
    {
        let mut r = String::from_str("[");
        r.append(method);
        r.append("] ");
        r.append(uri);
        r
    }
}

} // verus!
