//! What the handlers of the service take in, and what they decide.

pub mod credentials_controller;
pub mod diary_entries_controller;
pub mod skills;

use crate::models::diary_entries::DiaryEntryForm;
use crate::models::secret::PendingSecret;
use vstd::prelude::*;

verus! {

/// The request succeeded.
pub const OK: u16 = 200;

/// The request created something.
pub const CREATED: u16 = 201;

/// The answer is elsewhere.
pub const SEE_OTHER: u16 = 303;

/// The request is malformed.
pub const BAD_REQUEST: u16 = 400;

/// The request needs valid credentials.
pub const UNAUTHORIZED: u16 = 401;

/// What was asked for does not exist.
pub const NOT_FOUND: u16 = 404;

/// The request collides with what is there.
pub const CONFLICT: u16 = 409;

/// The service failed.
pub const INTERNAL_SERVER_ERROR: u16 = 500;

/// What a user submits to log in.
pub struct LoginForm {
    pub email: String,
    pub password: PendingSecret,
}

/// What a user submits to sign up.
pub struct SignupForm {
    pub email: String,
    pub name: String,
    pub password: PendingSecret,
}

/// What a user submits for an entry and its skills.
#[derive(Debug)]
pub struct DiaryForm {
    pub entry_form: DiaryEntryForm,
    pub skill_ids: Vec<i32>,
}

} // verus!
