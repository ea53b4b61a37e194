//! Data and rules of the service.

pub mod credentials;
pub mod diary_entries;
pub mod diary_entries_skills;
pub mod diary_entries_users;
pub mod hasher;
pub mod secret;
pub mod skills;
pub mod store;
pub mod validator;

pub use credentials::{
    change_password, create_user, get_name, trace_validation, validate_credentials, AuthError,
    Fault, ValidationTrace,
};
pub use diary_entries::{updated_entries, DateRangeRequest, DiaryEntry, DiaryEntryForm};
pub use diary_entries_skills::DiaryEntrySkills;
pub use diary_entries_users::DiaryEntryUser;
pub use hasher::{HashParams, HashString, SecretHasher};
pub use secret::PendingSecret;
pub use skills::Skill;
pub use store::{CredentialStore, Credentials};
