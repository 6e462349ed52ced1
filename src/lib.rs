//! Registration and login decisions of a small authentication backend.
//!
//! The library holds the request flow: credential validation, the
//! duplicate-email decision, password hashing and verification, and the
//! uniform response envelope. Database access and HTTP plumbing live outside
//! and hand their results to the functions here as plain values.

mod auth;
mod hashing;
mod response;
mod validation;

pub use auth::{
    admission, duplicate_outcome, login, login_decision, login_verdict, malformed_email_is_refused,
    register, register_after_insert, register_after_lookup, register_with_hash,
    registered_password_logs_in, reports, second_registration_is_refused, stored_hash, stored_in,
    unknown_email_looks_like_wrong_password, weak_password_is_refused, Lookup, RegisterAction,
    User,
};
pub use hashing::verify_accepts;
pub use response::{success_agrees_with_status, ApiResponse, Outcome};
pub use validation::{
    check_email, email_syntax_ok, has_dotted_domain, is_password_special, password_ok,
    validate_email_address, validate_password,
};
