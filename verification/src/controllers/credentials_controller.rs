//! Logging in and out, signing up, and naming the user of a session.

use crate::configuration::AppData;
use crate::controllers::{
    LoginForm, SignupForm, BAD_REQUEST, CONFLICT, INTERNAL_SERVER_ERROR, OK, SEE_OTHER,
    UNAUTHORIZED,
};
use crate::models::credentials::{
    create_user, get_name, signup_outcome, validate, validate_credentials, AuthError, Fault,
};
use crate::models::hasher::MAX_SECRET_CHARS;
use vstd::prelude::*;
use vstd::string::StringExecFns;

verus! {

/// Where a user who is not logged in is sent.
pub const LOGIN_PATH: &'static str = "/login";

/// Whether a text is an e-mail address by the rules of HTML5 forms, as
/// `validator::validate_email` decides it.
pub uninterp spec fn email_is_valid(email: Seq<char>) -> bool;

/// `validator::validate_email`: whether the text is an e-mail address.
#[verifier::external_body]
fn validate_email(email: &str) -> (valid: bool)
    ensures
        valid == email_is_valid(email@),
{
    validator::validate_email(email)
}

/// Why a login failed, as the user is told. The error behind it is kept for
/// diagnostics.
#[derive(Clone, Copy, Debug, PartialEq, Eq, Structural)]
pub enum LoginError {
    /// The credentials were not accepted.
    AuthError(AuthError),
    /// The service failed.
    UnexpectedError(AuthError),
}

impl LoginError {
    /// What the user is told: nothing of the error behind it.
    pub open spec fn description(self) -> Seq<char> {
        match self {
            LoginError::AuthError(_) => "Authentication failed"@,
            LoginError::UnexpectedError(_) => "Something went wrong"@,
        }
    }

    /// The status that the error is answered with.
    pub open spec fn status(self) -> u16 {
        match self {
            LoginError::UnexpectedError(_) => INTERNAL_SERVER_ERROR,
            LoginError::AuthError(_) => UNAUTHORIZED,
        }
    }

    /// The login error that an error of a validation becomes. Only invalid
    /// credentials are the user's; every other error is the service's.
    pub open spec fn of(e: AuthError) -> LoginError {
        match e {
            AuthError::InvalidCredentials => LoginError::AuthError(e),
            _ => LoginError::UnexpectedError(e),
        }
    }

    /// The login error that an error of a validation becomes.
    pub fn from_auth(e: AuthError) -> (error: Self)
        ensures
            error == LoginError::of(e),
    {
        match e {
            AuthError::InvalidCredentials => LoginError::AuthError(e),
            _ => LoginError::UnexpectedError(e),
        }
    }

    /// The status that the error is answered with: 401 for credentials that
    /// were not accepted, 500 for a failure of the service.
    pub fn status_code(&self) -> (status: u16)
        ensures
            status == self.status(),
    {
        match self {
            LoginError::UnexpectedError(_) => INTERNAL_SERVER_ERROR,
            LoginError::AuthError(_) => UNAUTHORIZED,
        }
    }

    /// What the user is told.
    pub fn message(&self) -> (text: String)
        ensures
            text@ == self.description(),
    {
        match self {
            LoginError::AuthError(_) => String::from_str("Authentication failed"),
            LoginError::UnexpectedError(_) => String::from_str("Something went wrong"),
        }
    }

    /// The error behind what the user is told.
    pub fn source(&self) -> (e: AuthError)
        ensures
            e == match *self {
                LoginError::AuthError(e) => e,
                LoginError::UnexpectedError(e) => e,
            },
    {
        match self {
            LoginError::AuthError(e) => *e,
            LoginError::UnexpectedError(e) => *e,
        }
    }
}

/// What a login answers: the principal, or the error that a validation's
/// error becomes.
pub open spec fn login_result(validated: Result<i32, AuthError>) -> Result<i32, LoginError> {
    match validated {
        Ok(user_id) => Ok(user_id),
        Err(e) => Err(LoginError::of(e)),
    }
}

/// Logs a user in: validates the submitted credentials.
///
/// The caller puts an accepted principal into a fresh session, and sends a
/// user whose login failed to `LOGIN_PATH`.
pub fn login(data: LoginForm, config: &AppData) -> (r: Result<i32, LoginError>)
    ensures
        r == login_result(validate(config.store@, data.email@, data.password@).1),
{
    match validate_credentials(config, data) {
        Ok(user_id) => Ok(user_id),
        Err(e) => Err(LoginError::from_auth(e)),
    }
}

/// The login error for a session that could not take the principal.
pub fn session_failure() -> (error: LoginError)
    ensures
        error == LoginError::UnexpectedError(AuthError::UnexpectedError(Fault::Session)),
{
    LoginError::UnexpectedError(AuthError::UnexpectedError(Fault::Session))
}

/// What asking for the name of a session's user is answered with.
pub enum SessionName {
    /// The name of the user.
    Name(String),
    /// Nobody is logged in: the user is sent to `LOGIN_PATH`.
    Redirect,
    /// The user of the session has no credential.
    Failed(AuthError),
}

impl SessionName {
    /// The status that goes with the answer.
    pub fn status_code(&self) -> (status: u16)
        ensures
            status == match *self {
                SessionName::Name(_) => OK,
                SessionName::Redirect => SEE_OTHER,
                SessionName::Failed(_) => INTERNAL_SERVER_ERROR,
            },
    {
        match self {
            SessionName::Name(_) => OK,
            SessionName::Redirect => SEE_OTHER,
            SessionName::Failed(_) => INTERNAL_SERVER_ERROR,
        }
    }
}

/// The name of the user that a session holds, if it holds one.
pub fn session_name(user: Option<i32>, config: &AppData) -> (reply: SessionName)
    ensures
        match user {
            None => reply is Redirect,
            Some(user_id) => match config.store@.credential_of(user_id as int) {
                Some(record) => reply matches SessionName::Name(name) && name@ == record.name,
                None => reply matches SessionName::Failed(e) && e == AuthError::UnexpectedError(
                    Fault::UnknownPrincipal,
                ),
            },
        },
{
    match user {
        None => SessionName::Redirect,
        Some(user_id) => match get_name(user_id, config) {
            Ok(name) => SessionName::Name(name),
            Err(e) => SessionName::Failed(e),
        },
    }
}

/// The status that a logout is answered with: a session without a user
/// cannot be logged out. The caller purges the session on 200.
pub fn logout(user: Option<i32>) -> (status: u16)
    ensures
        status == if user is Some {
            OK
        } else {
            BAD_REQUEST
        },
{
    if user.is_some() {
        OK
    } else {
        BAD_REQUEST
    }
}

/// The status that the result of a sign-up is answered with.
pub open spec fn signup_status(created: Result<(), AuthError>) -> u16 {
    match created {
        Ok(()) => OK,
        Err(AuthError::Conflict) => CONFLICT,
        Err(_) => INTERNAL_SERVER_ERROR,
    }
}

/// The status that the result of a sign-up is answered with: 200 when the
/// user was created, 409 when the identifier is taken, 500 otherwise.
pub fn signup_reply(created: Result<(), AuthError>) -> (status: u16)
    ensures
        status == signup_status(created),
{
    match created {
        Ok(()) => OK,
        Err(AuthError::Conflict) => CONFLICT,
        Err(_) => INTERNAL_SERVER_ERROR,
    }
}

/// The status that a sign-up is refused with before anything is hashed or
/// stored: 400 for an identifier that is no e-mail address, none for one that
/// is.
pub fn signup_refusal(email: &str) -> (refusal: Option<u16>)
    ensures
        refusal == if email_is_valid(email@) {
            None::<u16>
        } else {
            Some(BAD_REQUEST)
        },
{
    if validate_email(email) {
        None
    } else {
        Some(BAD_REQUEST)
    }
}

/// Signs a user up, if the identifier is an e-mail address.
///
/// An identifier that is no e-mail address is answered with 400, and nothing
/// is hashed or stored. Otherwise the user is created and the result decides
/// the status: with cost parameters that the hashing function accepts and a
/// secret of at most `MAX_SECRET_CHARS` characters, 409 for an identifier
/// that is taken and 200 for one that is free.
pub fn signup(data: SignupForm, config: &mut AppData) -> (status: u16)
    ensures
        final(config).env == old(config).env,
        final(config).db_name == old(config).db_name,
        final(config).hasher == old(config).hasher,
        !email_is_valid(data.email@) ==> status == BAD_REQUEST && final(config).store@ == old(
            config,
        ).store@,
        email_is_valid(data.email@) && old(config).hasher.params.valid() && data.password@.len()
            <= MAX_SECRET_CHARS ==> status == if old(config).store@.holds(data.email@) {
            CONFLICT
        } else if old(config).store@.next_id < i32::MAX {
            OK
        } else {
            INTERNAL_SERVER_ERROR
        },
        email_is_valid(data.email@) ==> exists|created: Result<(), AuthError>|
            status == #[trigger] signup_status(created) && signup_outcome(
                old(config).store@,
                old(config).hasher.params,
                data.email@,
                data.name@,
                data.password@,
                final(config).store@,
                created,
            ),
{
    match signup_refusal(data.email.as_str()) {
        Some(status) => status,
        None => {
            let created = create_user(data, config);
            signup_reply(created)
        },
    }
}

} // verus!
