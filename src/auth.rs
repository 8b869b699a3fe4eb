//! Password login: the account checks, the permission lookup and the claims
//! of the session token that a successful login is issued.

use vstd::prelude::*;
use crate::platform::{now_micros, password_matches, verify_password};
use crate::store::{has_email, holds, Database, StoredUser};
use crate::user::{project, User, UserResponse};

verus! {

/// How a request fails, each with its HTTP status.
#[derive(Debug, Clone, Copy, PartialEq, Eq, Structural)]
pub enum ApiError {
    NotFound,
    Conflict,
    InvalidCredentials,
    AccountDisabled,
    NotImplemented,
    Internal,
}

impl ApiError {
    pub open spec fn status_spec(self) -> u16 {
        match self {
            ApiError::NotFound => 404,
            ApiError::Conflict => 409,
            ApiError::InvalidCredentials => 401,
            ApiError::AccountDisabled => 401,
            ApiError::NotImplemented => 501,
            ApiError::Internal => 500,
        }
    }

    /// The reason given to the caller for this failure.
    pub open spec fn message_text(self) -> Seq<char> {
        match self {
            ApiError::NotFound => "User not found"@,
            ApiError::Conflict => "User with this email already exists"@,
            ApiError::InvalidCredentials => "Invalid credentials"@,
            ApiError::AccountDisabled => "Account is disabled"@,
            ApiError::NotImplemented => "Google OAuth not implemented yet"@,
            ApiError::Internal => "Internal server error"@,
        }
    }

    /// The HTTP status code of this failure.
    pub fn status(&self) -> (r: u16)
        ensures
            r == self.status_spec(),
    {
        match self {
            ApiError::NotFound => 404,
            ApiError::Conflict => 409,
            ApiError::InvalidCredentials => 401,
            ApiError::AccountDisabled => 401,
            ApiError::NotImplemented => 501,
            ApiError::Internal => 500,
        }
    }

    /// The short reason shown to the caller; it never holds internal detail.
    pub fn message(&self) -> (r: &'static str)
        ensures
            r@ == self.message_text(),
    {
        match self {
            ApiError::NotFound => "User not found",
            ApiError::Conflict => "User with this email already exists",
            ApiError::InvalidCredentials => "Invalid credentials",
            ApiError::AccountDisabled => "Account is disabled",
            ApiError::NotImplemented => "Google OAuth not implemented yet",
            ApiError::Internal => "Internal server error",
        }
    }
}

pub struct LoginRequest {
    pub email: String,
    pub password: String,
}

pub struct GoogleAuthRequest {
    pub code: String,
}

/// The payload of a session token. Times are seconds since the Unix epoch;
/// `is_admin` is what the user held when the token was issued.
pub struct Claims {
    pub sub: String,
    pub email: String,
    pub is_admin: bool,
    pub exp: i64,
    pub iat: i64,
}

/// What a successful login grants: the claims to sign and the user's
/// public projection.
pub struct LoginGrant {
    pub claims: Claims,
    pub user: UserResponse,
}

/// The answer to a successful login: the signed token and the user.
pub struct LoginResponse {
    pub token: String,
    pub user: UserResponse,
}

/// How long a session token lives: seven days, in seconds.
pub const SESSION_SECONDS: i64 = 604800;

/// The name of the permission that makes a user an administrator.
pub open spec fn admin_permission() -> Seq<char> {
    seq!['a', 'd', 'm', 'i', 'n']
}

/// A clock reading in whole seconds; a reading before the epoch counts as
/// the epoch.
pub open spec fn seconds_of(now_micros: i64) -> i64 {
    if now_micros > 0 {
        (now_micros / 1_000_000) as i64
    } else {
        0
    }
}

/// The claims issued to `u` at `now`, valid for seven days.
pub open spec fn session_claims(u: User, is_admin: bool, now: i64) -> Claims {
    Claims {
        sub: u.id,
        email: u.email,
        is_admin,
        exp: (seconds_of(now) + SESSION_SECONDS) as i64,
        iat: seconds_of(now),
    }
}

/// Whether the password verifies against the row's hash; a row without a
/// hash has password login disabled.
pub open spec fn password_verifies(password: Seq<char>, hash: Option<String>) -> bool {
    match hash {
        Some(h) => password_matches(password, h@),
        None => false,
    }
}

/// The login decision for the account found under the given e-mail, once
/// the password has been checked and the permissions looked up.
pub open spec fn login_outcome(
    row: StoredUser,
    password_ok: bool,
    is_admin: bool,
    now: i64,
) -> Result<LoginGrant, ApiError> {
    if !row.user.is_active {
        Err(ApiError::AccountDisabled)
    } else if row.password_hash is None || !password_ok {
        Err(ApiError::InvalidCredentials)
    } else {
        Ok(LoginGrant { claims: session_claims(row.user, is_admin, now), user: project(row.user) })
    }
}

/// The login decision against the whole store.
pub open spec fn login_spec(
    db: Database,
    email: Seq<char>,
    password: Seq<char>,
    i: int,
    now: i64,
) -> Result<LoginGrant, ApiError> {
    let row = db.rows()[i];
    login_outcome(
        row,
        password_verifies(password, row.password_hash),
        holds(db.grants(), row.user.id@, admin_permission()),
        now,
    )
}

pub(crate) fn admin_name() -> (r: String)
    ensures
        r@ == admin_permission(),
{
    let r = "admin".to_owned();
    proof {
        reveal_strlit("admin");
    }
    assert(r@ =~= admin_permission());
    r
}

/// Whether the user with this id holds the admin permission. No grant means
/// no: there is no failure distinct from `false`.
pub fn is_admin(db: &Database, user_id: &String) -> (r: bool)
    ensures
        r == holds(db.grants(), user_id@, admin_permission()),
{
    db.has_permission(user_id, &admin_name())
}

/// The claims issued at clock reading `now` to the user, valid for seven days.
pub fn issue_claims(user: &User, is_admin: bool, now: i64) -> (r: Claims)
    ensures
        r == session_claims(*user, is_admin, now),
{
    let iat: i64 = if now > 0 {
        now / 1_000_000
    } else {
        0
    };
    Claims {
        sub: user.id.clone(),
        email: user.email.clone(),
        is_admin,
        exp: iat + SESSION_SECONDS,
        iat,
    }
}

/// The steps of login after the lookup: the account must be active and have
/// a password hash that `password_ok` says the password verified against.
pub fn complete_login(row: &StoredUser, password_ok: bool, is_admin: bool, now: i64) -> (r: Result<
    LoginGrant,
    ApiError,
>)
    ensures
        r == login_outcome(*row, password_ok, is_admin, now),
{
    if !row.user.is_active {
        return Err(ApiError::AccountDisabled);
    }
    if row.password_hash.is_none() || !password_ok {
        return Err(ApiError::InvalidCredentials);
    }
    let claims = issue_claims(&row.user, is_admin, now);
    let user = UserResponse::from(row.user.duplicate());
    Ok(LoginGrant { claims, user })
}

/// Login at clock reading `now`. An unknown e-mail, a missing hash and a
/// wrong password are all `InvalidCredentials`; an inactive account is
/// `AccountDisabled`.
pub fn login_at(db: &Database, credentials: &LoginRequest, now: i64) -> (r: Result<
    LoginGrant,
    ApiError,
>)
    requires
        db.wf(),
    ensures
        !has_email(db.rows(), credentials.email@) ==> r == Err::<LoginGrant, ApiError>(
            ApiError::InvalidCredentials,
        ),
        forall|i: int|
            0 <= i < db.rows().len() && #[trigger] db.rows()[i].user.email@ == credentials.email@
                ==> r == login_spec(*db, credentials.email@, credentials.password@, i, now),
{
    let i = match db.index_of_email(&credentials.email) {
        Some(i) => i,
        None => return Err(ApiError::InvalidCredentials),
    };
    proof {
        assert forall|k: int|
            0 <= k < db.rows().len() && #[trigger] db.rows()[k].user.email@ == credentials.email@
                implies k == i by {
            db.lemma_email_unique(k, i as int);
        }
    }
    let row = db.row(i);
    let password_ok = match &row.password_hash {
        Some(h) => verify_password(credentials.password.as_str(), h.as_str()),
        None => false,
    };
    let admin = is_admin(db, &row.user.id);
    complete_login(row, password_ok, admin, now)
}

/// Login at the current time.
pub fn login(db: &Database, credentials: &LoginRequest) -> (r: Result<LoginGrant, ApiError>)
    requires
        db.wf(),
    ensures
        !has_email(db.rows(), credentials.email@) ==> r == Err::<LoginGrant, ApiError>(
            ApiError::InvalidCredentials,
        ),
        forall|i: int|
            0 <= i < db.rows().len() && #[trigger] db.rows()[i].user.email@ == credentials.email@
                ==> {
                let row = db.rows()[i];
                let ok = password_verifies(credentials.password@, row.password_hash);
                let admin = holds(db.grants(), row.user.id@, admin_permission());
                &&& !row.user.is_active ==> r == Err::<LoginGrant, ApiError>(ApiError::AccountDisabled)
                &&& row.user.is_active && !ok ==> r == Err::<LoginGrant, ApiError>(
                    ApiError::InvalidCredentials,
                )
                &&& row.user.is_active && ok ==> (r matches Ok(g) && g.user == project(row.user)
                    && g.claims.sub == row.user.id && g.claims.email == row.user.email
                    && g.claims.is_admin == admin && g.claims.exp == g.claims.iat + SESSION_SECONDS)
            },
{
    let now = now_micros();
    login_at(db, credentials, now)
}

/// Federated login is not available yet: every request is answered
/// `NotImplemented`.
pub fn google_auth(_db: &Database, _request: &GoogleAuthRequest) -> (r: Result<LoginGrant, ApiError>)
    ensures
        r == Err::<LoginGrant, ApiError>(ApiError::NotImplemented),
{
    Err(ApiError::NotImplemented)
}

/// Every refused login is a 401; only an inactive account gets the
/// "account disabled" variant, so an unknown e-mail, a missing hash and a
/// wrong password cannot be told apart.
pub proof fn law_login_rejections(row: StoredUser, password_ok: bool, is_admin: bool, now: i64)
    ensures
        login_outcome(row, password_ok, is_admin, now) matches Err(e) ==> {
            &&& e.status_spec() == 401
            &&& (e == ApiError::AccountDisabled) == !row.user.is_active
        },
        ApiError::InvalidCredentials.status_spec() == ApiError::AccountDisabled.status_spec(),
{
}

impl LoginResponse {
    /// The response to a login whose claims were signed into `token`.
    pub fn new(token: String, user: UserResponse) -> (r: LoginResponse)
        ensures
            r.token == token,
            r.user == user,
    {
        LoginResponse { token, user }
    }
}

} // verus!
