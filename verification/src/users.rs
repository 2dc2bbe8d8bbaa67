//! The user endpoints: registration, login and the current user's profile.
//! Each endpoint's decisions are here; the database work between them is the
//! caller's. Registration is checked and its password hashed with bcrypt
//! before the insert ([`register`]), and the insert's outcome answered after
//! it ([`register_completed`]). Login checks the stored bcrypt hash and
//! issues a 24-hour access token ([`login`]). The profile is answered from
//! the looked-up row ([`me`]).
use vstd::prelude::*;
use crate::auth::{
    gen_auth_token, is_utc_timestamp, issued_token, token_carries, token_issued_to, Claims,
    TokenType, UtcInstant,
};
use crate::text::{all_white_space, is_blank};

verus! {

/// A request to register a new user.
pub struct CreateUserRequest {
    pub email: String,
    pub password: String,
}

/// A request to log in.
pub struct LoginRequest {
    pub email: String,
    pub password: String,
}

/// The body of an error answer.
pub struct ErrorResponse {
    pub message: String,
}

/// A user as answered to clients.
pub struct UserResponse {
    pub id: i64,
    pub email: String,
    pub created_at: chrono::NaiveDateTime,
}

/// A successful login: the access token and the user.
pub struct LoginResponse {
    pub token: String,
    pub user: UserResponse,
}

/// A stored user, as the database returns it.
pub struct UserRow {
    pub id: i64,
    pub email: String,
    pub created_at: chrono::NaiveDateTime,
}

/// A stored user together with the bcrypt hash of their password.
pub struct StoredCredentials {
    pub id: i64,
    pub email: String,
    pub password_hash: String,
    pub created_at: chrono::NaiveDateTime,
}

/// A failed database operation: whether it broke a uniqueness constraint,
/// and the database's message.
pub struct DatabaseError {
    pub unique_violation: bool,
    pub message: String,
}

/// The answers of the registration endpoint.
pub enum RegisterResponse {
    Created(UserResponse),
    BadRequest(ErrorResponse),
    Conflict(ErrorResponse),
    InternalServerError(ErrorResponse),
}

/// The answers of the login endpoint.
pub enum LoginApiResponse {
    Success(LoginResponse),
    BadRequest(ErrorResponse),
    Unauthorized(ErrorResponse),
    InternalServerError(ErrorResponse),
}

/// The answers of the profile endpoint.
pub enum MeResponse {
    Success(UserResponse),
    Unauthorized(ErrorResponse),
    InternalServerError(ErrorResponse),
}

/// What happens to a registration request before the database is involved.
pub enum RegisterStep {
    /// The request is answered at once.
    Respond(RegisterResponse),
    /// The user is to be inserted with this email and password hash.
    Insert { email: String, password_hash: String },
}

#[verifier::external_type_specification]
#[verifier::external_body]
pub struct ExNaiveDateTime(chrono::NaiveDateTime);

/// Whether `bcrypt::verify` accepts `password` against `hash` (`Some(true)`),
/// rejects it (`Some(false)`) or fails because `hash` is not a well-formed
/// bcrypt hash (`None`).
pub uninterp spec fn bcrypt_check(password: Seq<char>, hash: Seq<char>) -> Option<bool>;

/// The shape of a hash made at bcrypt's default cost, 12: 60 characters, beginning
/// with the version `2b` and the two-digit cost, `$2b$12$`, followed by the
/// 22 characters of the salt and the 31 of the digest.
pub open spec fn is_bcrypt_hash_form(hash: Seq<char>) -> bool {
    hash.len() == 60 && hash.subrange(0, 7) == "$2b$12$"@
}

/// Calls `bcrypt::hash` with `bcrypt::DEFAULT_COST`, which is 12. The salt
/// is random, so the hash itself is not stated; what is stated is its shape
/// (the crate formats it as version `2b`, the cost in two digits, then the
/// salt and digest in 53 base-64 characters) and that `bcrypt::verify`
/// accepts the same password against it: the hash records its cost and
/// salt, and `verify` recomputes the digest from them and the password,
/// truncated the same way. It fails only when no random salt can be had.
#[verifier::external_body]
fn bcrypt_hash(password: &str) -> (r: Result<String, String>)
    ensures
        r matches Ok(h) ==> is_bcrypt_hash_form(h@) && bcrypt_check(password@, h@) == Some(true),
{
    bcrypt::hash(password, bcrypt::DEFAULT_COST).map_err(|e| e.to_string())
}

/// Calls `bcrypt::verify`; its result is `bcrypt_check` of its arguments.
#[verifier::external_body]
fn bcrypt_verify(password: &str, hash: &str) -> (r: Result<bool, String>)
    ensures
        match r {
            Ok(b) => bcrypt_check(password@, hash@) == Some(b),
            Err(_) => bcrypt_check(password@, hash@) is None,
        },
{
    bcrypt::verify(password, hash).map_err(|e| e.to_string())
}

/// The shortest accepted password, in characters.
pub const MIN_PASSWORD_LEN: usize = 6;

/// A registration is refused when the email is empty or blank, or the
/// password is shorter than six characters.
pub open spec fn registration_is_valid(email: Seq<char>, password: Seq<char>) -> bool {
    !all_white_space(email) && password.len() >= MIN_PASSWORD_LEN
}

/// The message of an answer carrying a database failure.
pub open spec fn database_error_message(message: Seq<char>) -> Seq<char> {
    "Database error: "@ + message
}

/// The user answer made from a stored row.
pub open spec fn answers_row(user: UserResponse, id: i64, email: Seq<char>, created_at: chrono::NaiveDateTime) -> bool {
    &&& user.id == id
    &&& user.email@ == email
    &&& user.created_at == created_at
}

/// The message of an error answer.
pub open spec fn error_says(e: ErrorResponse, message: Seq<char>) -> bool {
    e.message@ == message
}

fn error_response(message: &str) -> (r: ErrorResponse)
    ensures
        r.message@ == message@,
{
    ErrorResponse { message: message.to_owned() }
}

fn database_error_response(e: &DatabaseError) -> (r: ErrorResponse)
    ensures
        r.message@ == database_error_message(e.message@),
{
    let mut message = String::from_str("Database error: ");
    message.append(e.message.as_str());
    ErrorResponse { message }
}

/// The first step of registration: a request with a blank email or a
/// password under six characters is answered 400; otherwise the password is
/// hashed with bcrypt at cost 12 and the user is to be inserted with the
/// request's email and that hash (or, when hashing fails, the request is answered 500).
pub fn register(req: CreateUserRequest) -> (r: RegisterStep)
    ensures
        !registration_is_valid(req.email@, req.password@) ==> (r matches RegisterStep::Respond(
            RegisterResponse::BadRequest(e),
        ) && error_says(e, "Invalid email or password (min 6 characters)"@)),
        registration_is_valid(req.email@, req.password@) ==> match r {
            RegisterStep::Insert { email, password_hash } => email@ == req.email@
                && is_bcrypt_hash_form(password_hash@) && bcrypt_check(
                req.password@,
                password_hash@,
            ) == Some(true),
            RegisterStep::Respond(RegisterResponse::InternalServerError(e)) => error_says(
                e,
                "Failed to hash password"@,
            ),
            _ => false,
        },
{
    if is_blank(req.email.as_str()) || req.password.as_str().unicode_len() < MIN_PASSWORD_LEN {
        return RegisterStep::Respond(
            RegisterResponse::BadRequest(
                error_response("Invalid email or password (min 6 characters)"),
            ),
        );
    }
    match bcrypt_hash(req.password.as_str()) {
        Ok(password_hash) => RegisterStep::Insert { email: req.email, password_hash },
        Err(_) => RegisterStep::Respond(
            RegisterResponse::InternalServerError(error_response("Failed to hash password")),
        ),
    }
}

/// The last step of registration: the inserted user is answered 201; an
/// email that is already registered is answered 409; any other database
/// failure 500 with the database's message.
pub fn register_completed(inserted: Result<UserRow, DatabaseError>) -> (r: RegisterResponse)
    ensures
        match inserted {
            Ok(row) => r matches RegisterResponse::Created(user) && answers_row(
                user,
                row.id,
                row.email@,
                row.created_at,
            ),
            Err(e) => if e.unique_violation {
                r matches RegisterResponse::Conflict(m) && error_says(
                    m,
                    "Email is already registered"@,
                )
            } else {
                r matches RegisterResponse::InternalServerError(m) && error_says(
                    m,
                    database_error_message(e.message@),
                )
            },
        },
{
    match inserted {
        Ok(row) => RegisterResponse::Created(
            UserResponse { id: row.id, email: row.email, created_at: row.created_at },
        ),
        Err(e) => {
            if e.unique_violation {
                RegisterResponse::Conflict(error_response("Email is already registered"))
            } else {
                RegisterResponse::InternalServerError(database_error_response(&e))
            }
        },
    }
}

/// How long an access token issued at login lives, in hours.
pub const LOGIN_TOKEN_HOURS: u64 = 24;

/// The password matches the stored hash.
pub open spec fn credentials_match(password: Seq<char>, password_hash: Seq<char>) -> bool {
    bcrypt_check(password, password_hash) == Some(true)
}

/// The answer to a matching password when the clock reads `now`: the user
/// and a non-empty access token for the user's id expiring 24 hours after
/// `now`, when that expiry is an instant chrono represents; `None` when it
/// is not.
pub open spec fn login_answer_at(
    r: Option<LoginApiResponse>,
    stored: StoredCredentials,
    secret: Seq<char>,
    now: UtcInstant,
) -> bool {
    let exp = now.secs + 3600 * LOGIN_TOKEN_HOURS;
    if is_utc_timestamp(exp) {
        r matches Some(LoginApiResponse::Success(ok)) && answers_row(
            ok.user,
            stored.id,
            stored.email@,
            stored.created_at,
        ) && ok.token@.len() > 0 && token_carries(
            ok.token@,
            secret,
            Claims { sub: stored.id, exp: exp as i64, aud: TokenType::Access },
        )
    } else {
        r is None
    }
}

/// The login answer for a request with `password`, given the stored
/// credentials looked up by its email.
pub open spec fn login_outcome(
    password: Seq<char>,
    found: Result<Option<StoredCredentials>, DatabaseError>,
    secret: Seq<char>,
    r: Option<LoginApiResponse>,
) -> bool {
    &&& match found {
        Err(e) => r matches Some(LoginApiResponse::InternalServerError(m)) && error_says(
            m,
            database_error_message(e.message@),
        ),
        Ok(None) => r matches Some(LoginApiResponse::Unauthorized(m)) && error_says(
            m,
            "Invalid email or password"@,
        ),
        Ok(Some(stored)) => if credentials_match(password, stored.password_hash@) {
            r is None || exists|now: UtcInstant|
                is_utc_timestamp(now.secs as int) && #[trigger] login_answer_at(
                    r,
                    stored,
                    secret,
                    now,
                )
        } else {
            r matches Some(LoginApiResponse::Unauthorized(m)) && error_says(
                m,
                "Invalid email or password"@,
            )
        },
    }
    &&& r is None ==> (found matches Ok(Some(stored)) && credentials_match(
        password,
        stored.password_hash@,
    ))
}

/// The login answer for a request, given the stored credentials looked up by
/// the request's email. A database failure is answered 500 with its message.
/// An unknown email, a wrong password or a malformed stored hash are
/// answered 401 alike. A matching password is answered with the user and an
/// access token for the user's id, expiring 24 hours after the instant the
/// clock reads, signed with `jwt_secret`. `None` only for a matching
/// password, where no token can be issued: the clock reads before the Unix
/// epoch or past chrono's last instant, or the expiry lies past it.
pub fn login(req: &LoginRequest, jwt_secret: &str, found: Result<
    Option<StoredCredentials>,
    DatabaseError,
>) -> (r: Option<LoginApiResponse>)
    ensures
        login_outcome(req.password@, found, jwt_secret@, r),
        r matches Some(LoginApiResponse::Success(ok)) ==> token_issued_to(
            ok.token@,
            jwt_secret@,
            ok.user.id,
            TokenType::Access,
        ),
{
    match found {
        Err(e) => Some(LoginApiResponse::InternalServerError(database_error_response(&e))),
        Ok(None) => Some(
            LoginApiResponse::Unauthorized(error_response("Invalid email or password")),
        ),
        Ok(Some(stored)) => {
            let verified = bcrypt_verify(req.password.as_str(), stored.password_hash.as_str());
            let accepted = match verified {
                Ok(b) => b,
                Err(_) => false,
            };
            if accepted {
                let ghost stored_before = stored;
                let token = gen_auth_token(
                    stored.id,
                    TokenType::Access,
                    LOGIN_TOKEN_HOURS,
                    jwt_secret,
                );
                match token {
                    Some(token) => {
                        let ghost now = choose|now: UtcInstant|
                            is_utc_timestamp(now.secs as int) && #[trigger] issued_token(
                                Some(token),
                                stored_before.id,
                                TokenType::Access,
                                LOGIN_TOKEN_HOURS,
                                jwt_secret@,
                                now,
                            );
                        let answer = Some(
                            LoginApiResponse::Success(
                                LoginResponse {
                                    token,
                                    user: UserResponse {
                                        id: stored.id,
                                        email: stored.email,
                                        created_at: stored.created_at,
                                    },
                                },
                            ),
                        );
                        assert(login_answer_at(answer, stored_before, jwt_secret@, now));
                        answer
                    },
                    None => None,
                }
            } else {
                Some(LoginApiResponse::Unauthorized(error_response("Invalid email or password")))
            }
        },
    }
}

/// A user who registered with a password logs in with it: the hash that
/// registration stores (one bcrypt accepts for the password) makes login
/// answer with the user and a 24-hour token, never 401 (unless no token can
/// be issued at all).
pub proof fn registered_password_logs_in(
    password: Seq<char>,
    stored: StoredCredentials,
    secret: Seq<char>,
    r: Option<LoginApiResponse>,
)
    requires
        bcrypt_check(password, stored.password_hash@) == Some(true),
        login_outcome(password, Ok(Some(stored)), secret, r),
    ensures
        !(r matches Some(LoginApiResponse::Unauthorized(_))),
        r is None || exists|now: UtcInstant|
            is_utc_timestamp(now.secs as int) && #[trigger] login_answer_at(
                r,
                stored,
                secret,
                now,
            ),
{
    if r is Some {
        let now = choose|now: UtcInstant|
            is_utc_timestamp(now.secs as int) && #[trigger] login_answer_at(r, stored, secret, now);
        assert(login_answer_at(r, stored, secret, now));
    }
}

/// The profile answer, given the stored user looked up by the token's
/// subject: the user (200), `User not found` (401) when there is no such
/// user, or the database's message (500).
pub fn me(found: Result<Option<UserRow>, DatabaseError>) -> (r: MeResponse)
    ensures
        match found {
            Ok(Some(row)) => r matches MeResponse::Success(user) && answers_row(
                user,
                row.id,
                row.email@,
                row.created_at,
            ),
            Ok(None) => r matches MeResponse::Unauthorized(m) && error_says(m, "User not found"@),
            Err(e) => r matches MeResponse::InternalServerError(m) && error_says(
                m,
                database_error_message(e.message@),
            ),
        },
{
    match found {
        Ok(Some(row)) => MeResponse::Success(
            UserResponse { id: row.id, email: row.email, created_at: row.created_at },
        ),
        Ok(None) => MeResponse::Unauthorized(error_response("User not found")),
        Err(e) => MeResponse::InternalServerError(database_error_response(&e)),
    }
}

impl RegisterResponse {
    /// The HTTP status of the answer.
    pub fn status_code(&self) -> (r: u16)
        ensures
            r == match self {
                RegisterResponse::Created(_) => 201u16,
                RegisterResponse::BadRequest(_) => 400,
                RegisterResponse::Conflict(_) => 409,
                RegisterResponse::InternalServerError(_) => 500,
            },
    {
        match self {
            RegisterResponse::Created(_) => 201,
            RegisterResponse::BadRequest(_) => 400,
            RegisterResponse::Conflict(_) => 409,
            RegisterResponse::InternalServerError(_) => 500,
        }
    }
}

impl LoginApiResponse {
    /// The HTTP status of the answer.
    pub fn status_code(&self) -> (r: u16)
        ensures
            r == match self {
                LoginApiResponse::Success(_) => 200u16,
                LoginApiResponse::BadRequest(_) => 400,
                LoginApiResponse::Unauthorized(_) => 401,
                LoginApiResponse::InternalServerError(_) => 500,
            },
    {
        match self {
            LoginApiResponse::Success(_) => 200,
            LoginApiResponse::BadRequest(_) => 400,
            LoginApiResponse::Unauthorized(_) => 401,
            LoginApiResponse::InternalServerError(_) => 500,
        }
    }
}

impl MeResponse {
    /// The HTTP status of the answer.
    pub fn status_code(&self) -> (r: u16)
        ensures
            r == match self {
                MeResponse::Success(_) => 200u16,
                MeResponse::Unauthorized(_) => 401,
                MeResponse::InternalServerError(_) => 500,
            },
    {
        match self {
            MeResponse::Success(_) => 200,
            MeResponse::Unauthorized(_) => 401,
            MeResponse::InternalServerError(_) => 500,
        }
    }
}

} // verus!
