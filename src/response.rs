//! The outcomes of the two endpoints and the uniform response envelope.

use vstd::prelude::*;

verus! {

/// The JSON envelope every endpoint answers with.
pub struct ApiResponse<T> {
    pub success: bool,
    pub code: u16,
    pub message: String,
    pub data: Option<T>,
}

/// Every way a registration or login request can end.
#[derive(Clone, Copy, Debug, PartialEq, Eq, Structural)]
pub enum Outcome {
    AccountCreated,
    LoggedIn,
    InvalidEmail,
    InvalidPassword,
    EmailTaken,
    HashingFailed,
    CreateFailed,
    InvalidCredentials,
}

impl Outcome {
    /// The HTTP status of the outcome.
    pub open spec fn status(self) -> u16 {
        match self {
            Outcome::AccountCreated => 201,
            Outcome::LoggedIn => 200,
            Outcome::InvalidEmail => 400,
            Outcome::InvalidPassword => 400,
            Outcome::EmailTaken => 400,
            Outcome::HashingFailed => 500,
            Outcome::CreateFailed => 500,
            Outcome::InvalidCredentials => 401,
        }
    }

    /// The message shown to the caller.
    pub open spec fn text(self) -> Seq<char> {
        match self {
            Outcome::AccountCreated => "Account created successfully"@,
            Outcome::LoggedIn => "Logged in successfully"@,
            Outcome::InvalidEmail => "Invalid email address"@,
            Outcome::InvalidPassword => "Invalid password. Password must be at least 8 characters and include upper/lower case, number, and special character"@,
            Outcome::EmailTaken => "Username already exists"@,
            Outcome::HashingFailed => "Password hashing failed"@,
            Outcome::CreateFailed => "Error creating user"@,
            Outcome::InvalidCredentials => "Invalid username or password"@,
        }
    }

    /// Whether the request succeeded.
    pub open spec fn succeeded(self) -> bool {
        self is AccountCreated || self is LoggedIn
    }

    pub fn code(&self) -> (r: u16)
        ensures
            r == self.status(),
    {
        match self {
            Outcome::AccountCreated => 201,
            Outcome::LoggedIn => 200,
            Outcome::InvalidEmail => 400,
            Outcome::InvalidPassword => 400,
            Outcome::EmailTaken => 400,
            Outcome::HashingFailed => 500,
            Outcome::CreateFailed => 500,
            Outcome::InvalidCredentials => 401,
        }
    }

    pub fn message(&self) -> (r: String)
        ensures
            r@ == self.text(),
    {
        let text = match self {
            Outcome::AccountCreated => "Account created successfully",
            Outcome::LoggedIn => "Logged in successfully",
            Outcome::InvalidEmail => "Invalid email address",
            Outcome::InvalidPassword => "Invalid password. Password must be at least 8 characters and include upper/lower case, number, and special character",
            Outcome::EmailTaken => "Username already exists",
            Outcome::HashingFailed => "Password hashing failed",
            Outcome::CreateFailed => "Error creating user",
            Outcome::InvalidCredentials => "Invalid username or password",
        };
        String::from_str(text)
    }

    pub fn is_success(&self) -> (r: bool)
        ensures
            r == self.succeeded(),
    {
        match self {
            Outcome::AccountCreated | Outcome::LoggedIn => true,
            _ => false,
        }
    }

    /// The envelope for this outcome; it never carries data.
    pub fn to_response<T>(&self) -> (r: ApiResponse<T>)
        ensures
            r.success == self.succeeded(),
            r.code == self.status(),
            r.message@ == self.text(),
            r.data is None,
    {
        ApiResponse { success: self.is_success(), code: self.code(), message: self.message(), data: None }
    }
}

/// A successful envelope is exactly one with a 2xx status.
pub proof fn success_agrees_with_status(o: Outcome)
    ensures
        o.succeeded() <==> 200 <= o.status() < 300,
{
}

} // verus!
