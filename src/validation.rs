//! Validation of registration credentials.

use vstd::prelude::*;
use validator::ValidationError;

verus! {

/// Names `validator::validate_email`: a function of the characters alone.
pub uninterp spec fn email_syntax_ok(s: Seq<char>) -> bool;

/// Relies on `validator::validate_email` for the standard email syntax
/// (local part, `@`, domain or IP literal).
#[verifier::external_body]
fn check_email_syntax(s: &str) -> (r: bool)
    ensures
        r == email_syntax_ok(s@),
{
    validator::validate_email(s)
}

/// `s` has an `@` with no later `@`, and a `.` somewhere after it:
/// the domain part after the last `@` holds at least one dot.
pub open spec fn has_dotted_domain(s: Seq<char>) -> bool {
    exists|i: int, j: int|
        #![trigger s[i], s[j]]
        0 <= i < j < s.len() && s[i] == '@' && s[j] == '.' && forall|k: int|
            i < k < s.len() ==> s[k] != '@'
}

/// The email rule: standard syntax, and a domain with at least one dot.
pub open spec fn check_email(s: Seq<char>) -> bool {
    email_syntax_ok(s) && has_dotted_domain(s)
}

/// Tests whether the part after the last `@` of `s` holds a dot.
fn dotted_domain(s: &str) -> (r: bool)
    ensures
        r == has_dotted_domain(s@),
{
    let n = s.unicode_len();
    let mut i: usize = n;
    let mut dot_after: bool = false;
    while i > 0
        invariant
            n == s@.len(),
            i <= n,
            forall|k: int| i <= k < n ==> s@[k] != '@',
            dot_after == exists|j: int| i <= j < n && s@[j] == '.',
        decreases i,
    {
        i = i - 1;
        let c = s.get_char(i);
        if c == '@' {
            proof {
                if dot_after {
                    let j = choose|j: int| i < j < n && s@[j] == '.';
                    assert(s@[i as int] == '@' && s@[j] == '.');
                } else {
                    assert forall|a: int, b: int|
                        0 <= a < b < n && s@[a] == '@' && s@[b] == '.' implies exists|k: int|
                        a < k < n && s@[k] == '@' by {
                        if a < i {
                            assert(s@[i as int] == '@');
                        } else if a > i {
                        } else {
                        }
                    }
                }
            }
            return dot_after;
        }
        if c == '.' {
            dot_after = true;
        }
    }
    proof {
        assert forall|a: int, b: int| 0 <= a < b < n && s@[a] == '@' && s@[b] == '.' implies false by {
            assert(s@[a] != '@');
        }
    }
    false
}

/// Checks an email address: standard syntax, and a dot in the domain.
pub fn validate_email_address(email: &str) -> (r: bool)
    ensures
        r == check_email(email@),
{
    let syntax = check_email_syntax(email);
    if !syntax {
        return false;
    }
    dotted_domain(email)
}

/// The special characters of the password rule: `@ $ ! % * ? &`.
pub open spec fn is_password_special(c: char) -> bool {
    c == '@' || c == '$' || c == '!' || c == '%' || c == '*' || c == '?' || c == '&'
}

/// The password rule: at least 8 characters, with an ASCII uppercase
/// letter, an ASCII lowercase letter, an ASCII digit and a special character.
pub open spec fn password_ok(p: Seq<char>) -> bool {
    &&& p.len() >= 8
    &&& exists|i: int| 0 <= i < p.len() && 'A' <= #[trigger] p[i] <= 'Z'
    &&& exists|i: int| 0 <= i < p.len() && 'a' <= #[trigger] p[i] <= 'z'
    &&& exists|i: int| 0 <= i < p.len() && '0' <= #[trigger] p[i] <= '9'
    &&& exists|i: int| 0 <= i < p.len() && is_password_special(#[trigger] p[i])
}

/// The error type of `validator`'s field checks, carried through opaquely.
#[verifier::external_type_specification]
#[verifier::external_body]
pub struct ExValidationError(ValidationError);

/// Relies on `validator::ValidationError::new`: an error tagged with `code`.
#[verifier::external_body]
fn validation_error(code: &'static str) -> ValidationError {
    ValidationError::new(code)
}

/// Checks a password against the password rule.
pub fn validate_password(password: &str) -> (r: Result<(), ValidationError>)
    ensures
        r is Ok <==> password_ok(password@),
{
    let n = password.unicode_len();
    let mut has_upper: bool = false;
    let mut has_lower: bool = false;
    let mut has_digit: bool = false;
    let mut has_special: bool = false;
    let mut i: usize = 0;
    while i < n
        invariant
            n == password@.len(),
            i <= n,
            has_upper == exists|k: int| 0 <= k < i && 'A' <= #[trigger] password@[k] <= 'Z',
            has_lower == exists|k: int| 0 <= k < i && 'a' <= #[trigger] password@[k] <= 'z',
            has_digit == exists|k: int| 0 <= k < i && '0' <= #[trigger] password@[k] <= '9',
            has_special == exists|k: int|
                0 <= k < i && is_password_special(#[trigger] password@[k]),
        decreases n - i,
    {
        let c = password.get_char(i);
        if 'A' <= c && c <= 'Z' {
            has_upper = true;
        }
        if 'a' <= c && c <= 'z' {
            has_lower = true;
        }
        if '0' <= c && c <= '9' {
            has_digit = true;
        }
        if c == '@' || c == '$' || c == '!' || c == '%' || c == '*' || c == '?' || c == '&' {
            has_special = true;
        }
        i = i + 1;
    }
    if has_upper && has_lower && has_digit && has_special && n >= 8 {
        Ok(())
    } else {
        Err(validation_error("password"))
    }
}

} // verus!
