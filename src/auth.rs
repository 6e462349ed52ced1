//! The registration and login flows.
//!
//! Registration is a short linear flow with two storage steps, a lookup and
//! an insert. The functions here make every decision between them: the
//! caller performs the storage step an action names and hands its result to
//! the next function.

use vstd::prelude::*;
use bcrypt::BcryptError;
use crate::hashing::{hash_password, verify_accepts, verify_password};
use crate::response::Outcome;
use crate::validation::{check_email, has_dotted_domain, is_password_special, password_ok, validate_email_address, validate_password};

verus! {

/// The credentials of a registration or login request.
pub struct User {
    pub email: String,
    pub password: String,
}

/// What a lookup of a user by email produced.
pub enum Lookup<T> {
    /// A user with that email exists; the payload is what was read of it.
    Found(T),
    /// No user has that email.
    Absent,
    /// The lookup itself failed.
    Failed,
}

/// The next step of a registration.
pub enum RegisterAction {
    /// Look up the email, then call `register_after_lookup`.
    FindUser,
    /// Insert the email with this password hash, then call `register_after_insert`.
    InsertUser(String),
    /// The flow is over: answer with this outcome.
    Respond(Outcome),
}

/// The outcome of validating registration credentials, if validation ends
/// the flow: the email is checked first, the password only for a valid email.
pub open spec fn admission(email: Seq<char>, password: Seq<char>) -> Option<Outcome> {
    if !check_email(email) {
        Some(Outcome::InvalidEmail)
    } else if !password_ok(password) {
        Some(Outcome::InvalidPassword)
    } else {
        None
    }
}

/// The stored hash a login lookup yields, if any.
pub open spec fn stored_hash(stored: Lookup<String>) -> Option<Seq<char>> {
    match stored {
        Lookup::Found(h) => Some(h@),
        _ => None,
    }
}

/// The outcome of a login for `password` against the stored hash, if any.
pub open spec fn login_decision(password: Seq<char>, stored: Option<Seq<char>>) -> Outcome {
    match stored {
        Some(h) => if verify_accepts(password, h) {
            Outcome::LoggedIn
        } else {
            Outcome::InvalidCredentials
        },
        None => Outcome::InvalidCredentials,
    }
}

/// The registration outcome a lookup of the email decides, if any: an
/// existing user ends the flow.
pub open spec fn duplicate_outcome<T>(existing: Lookup<T>) -> Option<Outcome> {
    if existing is Found {
        Some(Outcome::EmailTaken)
    } else {
        None
    }
}

/// The password hash a store of users, keyed by email, holds for `email`.
pub open spec fn stored_in(store: Map<Seq<char>, Seq<char>>, email: Seq<char>) -> Option<
    Seq<char>,
> {
    if store.contains_key(email) {
        Some(store[email])
    } else {
        None
    }
}

/// `existing` is a lookup of `email` that succeeded and reports the store truly.
pub open spec fn reports<T>(existing: Lookup<T>, store: Map<Seq<char>, Seq<char>>, email: Seq<char>) -> bool {
    match existing {
        Lookup::Found(_) => store.contains_key(email),
        Lookup::Absent => !store.contains_key(email),
        Lookup::Failed => false,
    }
}

/// Starts a registration: validates the credentials.
pub fn register(user: &User) -> (r: RegisterAction)
    ensures
        match admission(user.email@, user.password@) {
            Some(o) => r == RegisterAction::Respond(o),
            None => r is FindUser,
        },
{
    if !validate_email_address(user.email.as_str()) {
        return RegisterAction::Respond(Outcome::InvalidEmail);
    }
    if validate_password(user.password.as_str()).is_err() {
        return RegisterAction::Respond(Outcome::InvalidPassword);
    }
    RegisterAction::FindUser
}

/// Continues a registration with the result of hashing its password.
pub fn register_with_hash(hashed: Result<String, BcryptError>) -> (r: RegisterAction)
    ensures
        match hashed {
            Ok(h) => r == RegisterAction::InsertUser(h),
            Err(_) => r == RegisterAction::Respond(Outcome::HashingFailed),
        },
{
    match hashed {
        Ok(h) => RegisterAction::InsertUser(h),
        Err(_) => RegisterAction::Respond(Outcome::HashingFailed),
    }
}

/// Continues a registration with the result of looking up its email.
///
/// An existing user ends the flow. A failed lookup proceeds like an absent
/// user: the uniqueness constraint of the store is the authoritative guard,
/// and an insert it rejects ends the flow with `CreateFailed`.
/// Otherwise the password is hashed, and every hash handed on for insertion
/// verifies against the password.
pub fn register_after_lookup<T>(user: &User, existing: Lookup<T>) -> (r: RegisterAction)
    ensures
        match duplicate_outcome(existing) {
            Some(o) => r == RegisterAction::Respond(o),
            None => r == RegisterAction::Respond(Outcome::HashingFailed) || (
            r matches RegisterAction::InsertUser(h) && verify_accepts(user.password@, h@)),
        },
{
    match existing {
        Lookup::Found(_) => RegisterAction::Respond(Outcome::EmailTaken),
        _ => register_with_hash(hash_password(user.password.as_str())),
    }
}

/// Ends a registration with the result of the insert.
pub fn register_after_insert(inserted: bool) -> (r: Outcome)
    ensures
        r == if inserted {
            Outcome::AccountCreated
        } else {
            Outcome::CreateFailed
        },
{
    if inserted {
        Outcome::AccountCreated
    } else {
        Outcome::CreateFailed
    }
}

/// Decides a login from the verdict of the password check.
pub fn login_verdict(verified: Result<bool, BcryptError>) -> (r: Outcome)
    ensures
        r == if verified matches Ok(b) && b {
            Outcome::LoggedIn
        } else {
            Outcome::InvalidCredentials
        },
{
    match verified {
        Ok(true) => Outcome::LoggedIn,
        _ => Outcome::InvalidCredentials,
    }
}

/// Decides a login from the lookup of the user's stored password hash.
/// Absent user, failed lookup and wrong password give the same outcome.
pub fn login(user: &User, stored: Lookup<String>) -> (r: Outcome)
    ensures
        r == login_decision(user.password@, stored_hash(stored)),
{
    match stored {
        Lookup::Found(h) => login_verdict(verify_password(user.password.as_str(), h.as_str())),
        _ => Outcome::InvalidCredentials,
    }
}

/// An email without `@`, or without a dot after its last `@`, is refused
/// with the invalid-email outcome, whatever the password.
pub proof fn malformed_email_is_refused(email: Seq<char>, password: Seq<char>)
    requires
        (forall|i: int| 0 <= i < email.len() ==> email[i] != '@') || !has_dotted_domain(email),
    ensures
        admission(email, password) == Some(Outcome::InvalidEmail),
        Outcome::InvalidEmail.status() == 400,
{
    if has_dotted_domain(email) {
        let (i, j) = choose|i: int, j: int|
            #![trigger email[i], email[j]]
            0 <= i < j < email.len() && email[i] == '@' && email[j] == '.' && forall|k: int|
                i < k < email.len() ==> email[k] != '@';
        assert(email[i] == '@');
    }
}

/// For a valid email, a password shorter than 8 characters or without an
/// uppercase letter, a lowercase letter, a digit or a special character is
/// refused with the invalid-password outcome.
pub proof fn weak_password_is_refused(email: Seq<char>, password: Seq<char>)
    requires
        check_email(email),
        password.len() < 8 || !(exists|i: int| 0 <= i < password.len() && 'A' <= #[trigger] password[i] <= 'Z')
            || !(exists|i: int| 0 <= i < password.len() && 'a' <= #[trigger] password[i] <= 'z')
            || !(exists|i: int| 0 <= i < password.len() && '0' <= #[trigger] password[i] <= '9')
            || !(exists|i: int| 0 <= i < password.len() && is_password_special(#[trigger] password[i])),
    ensures
        admission(email, password) == Some(Outcome::InvalidPassword),
        Outcome::InvalidPassword.status() == 400,
{
}

/// Once a registration has stored `email`, a second registration of that
/// email passes validation again and is refused as taken by a lookup that
/// reports the store truly.
pub proof fn second_registration_is_refused<T>(
    store: Map<Seq<char>, Seq<char>>,
    email: Seq<char>,
    password: Seq<char>,
    hash: Seq<char>,
    existing: Lookup<T>,
)
    requires
        admission(email, password) is None,
        reports(existing, store.insert(email, hash), email),
    ensures
        admission(email, password) is None,
        duplicate_outcome(existing) == Some(Outcome::EmailTaken),
        Outcome::EmailTaken.status() == 400,
{
}

/// A hash that registration stores for a password (one that verifies
/// against it) lets that password log in; a password the hash does not
/// accept is refused.
pub proof fn registered_password_logs_in(
    store: Map<Seq<char>, Seq<char>>,
    email: Seq<char>,
    password: Seq<char>,
    other: Seq<char>,
    hash: Seq<char>,
)
    requires
        verify_accepts(password, hash),
    ensures
        login_decision(password, stored_in(store.insert(email, hash), email)) == Outcome::LoggedIn,
        !verify_accepts(other, hash) ==> login_decision(other, stored_in(store.insert(email, hash), email))
            == Outcome::InvalidCredentials,
        Outcome::LoggedIn.status() == 200,
{
    assert(store.insert(email, hash).contains_key(email));
}

/// A login for an email the store does not hold, or whose lookup failed,
/// ends exactly as a login with a wrong password for a stored email.
pub proof fn unknown_email_looks_like_wrong_password(
    store: Map<Seq<char>, Seq<char>>,
    email: Seq<char>,
    password: Seq<char>,
    known: Seq<char>,
    wrong: Seq<char>,
)
    requires
        !store.contains_key(email),
        store.contains_key(known),
        !verify_accepts(wrong, store[known]),
    ensures
        login_decision(password, stored_in(store, email)) == login_decision(wrong, stored_in(store, known)),
        login_decision(password, None) == login_decision(wrong, stored_in(store, known)),
        login_decision(wrong, stored_in(store, known)) == Outcome::InvalidCredentials,
        Outcome::InvalidCredentials.status() == 401,
{
}

} // verus!
