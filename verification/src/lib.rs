//! Credential verification for a personal record-keeping service.
//!
//! The crate turns a submitted identifier and plaintext secret into an
//! authenticated principal or a classified rejection, and states in its
//! contracts what each step decides.
//!
//! - `models::hasher` hashes secrets and verifies them against stored hashes.
//! - `models::store` holds the credentials: one per principal, no identifier
//!   twice.
//! - `models::validator` is the flow of a validation and of a write, as
//!   transition functions that a caller drives.
//! - `models::credentials` runs those flows against a store, and states what
//!   signing up, validating and changing a password have to do with each
//!   other.
//! - `controllers` holds what the handlers of the service decide.
//! - `configuration` holds the settings, and `text` the decimal text of
//!   numbers.

pub mod configuration;
pub mod controllers;
pub mod models;
pub mod text;
