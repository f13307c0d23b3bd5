//! Structured request-body validation: field rules for the bodies the
//! gateway screens before forwarding.
//!
//! String lengths are counted in characters and checked here; email
//! well-formedness is delegated to the `validator` crate behind a trusted
//! wrapper.

use vstd::prelude::*;

verus! {

/// A request body failed its field rules.
pub struct ValidationError;

/// A body with per-field rules: `valid` states the rules, `validate`
/// checks them.
pub trait Validate: Sized {
    /// The conjunction of the type's field rules.
    spec fn valid(&self) -> bool;

    /// Checks the field rules.
    fn validate(&self) -> (r: Result<(), ValidationError>)
        ensures
            r is Ok <==> self.valid(),
    ;
}

/// Validates any rule-carrying body.
pub fn validate_input<T: Validate>(input: &T) -> (r: Result<(), ValidationError>)
    ensures
        r is Ok <==> input.valid(),
{
    input.validate()
}

/// Whether the `validator` crate accepts a string as an email address.
/// The result depends on the characters alone.
pub uninterp spec fn email_accepted(s: Seq<char>) -> bool;

/// Relies on `validator::ValidateEmail` for `&str`: whether the string is
/// a well-formed email address under the HTML5 rules.
#[verifier::external_body]
fn check_email(s: &str) -> (r: bool)
    ensures
        r == email_accepted(s@),
{
    validator::ValidateEmail::validate_email(&s)
}

/// A login or registration payload: username of 3 to 50 characters and a
/// password of at least 6.
#[derive(Debug)]
pub struct AuthRequest {
    pub username: String,
    pub password: String,
}

impl Validate for AuthRequest {
    open spec fn valid(&self) -> bool {
        &&& 3 <= self.username@.len() <= 50
        &&& self.password@.len() >= 6
    }

    fn validate(&self) -> (r: Result<(), ValidationError>) {
        let ulen = self.username.as_str().unicode_len();
        let plen = self.password.as_str().unicode_len();
        if 3 <= ulen && ulen <= 50 && 6 <= plen {
            Ok(())
        } else {
            Err(ValidationError)
        }
    }
}

/// A user-creation payload: username of 3 to 50 characters, a well-formed
/// email address, and a password of at least 6 characters.
#[derive(Debug)]
pub struct CreateUserRequest {
    pub username: String,
    pub email: String,
    pub password: String,
}

impl Validate for CreateUserRequest {
    open spec fn valid(&self) -> bool {
        &&& 3 <= self.username@.len() <= 50
        &&& email_accepted(self.email@)
        &&& self.password@.len() >= 6
    }

    fn validate(&self) -> (r: Result<(), ValidationError>) {
        let ulen = self.username.as_str().unicode_len();
        let plen = self.password.as_str().unicode_len();
        if 3 <= ulen && ulen <= 50 && 6 <= plen && check_email(self.email.as_str()) {
            Ok(())
        } else {
            Err(ValidationError)
        }
    }
}

/// A room-creation payload: name of 1 to 100 characters and an optional
/// description of at most 500.
#[derive(Debug)]
pub struct CreateRoomRequest {
    pub name: String,
    pub description: Option<String>,
    pub is_private: bool,
}

impl Validate for CreateRoomRequest {
    open spec fn valid(&self) -> bool {
        &&& 1 <= self.name@.len() <= 100
        &&& (self.description matches Some(d) ==> d@.len() <= 500)
    }

    fn validate(&self) -> (r: Result<(), ValidationError>) {
        let nlen = self.name.as_str().unicode_len();
        let desc_ok = match &self.description {
            Some(d) => d.as_str().unicode_len() <= 500,
            None => true,
        };
        if 1 <= nlen && nlen <= 100 && desc_ok {
            Ok(())
        } else {
            Err(ValidationError)
        }
    }
}

/// A message payload: content of 1 to 1000 characters.
#[derive(Debug)]
pub struct SendMessageRequest {
    pub content: String,
    pub room_id: u32,
    pub sender_id: u32,
}

impl Validate for SendMessageRequest {
    open spec fn valid(&self) -> bool {
        1 <= self.content@.len() <= 1000
    }

    fn validate(&self) -> (r: Result<(), ValidationError>) {
        let clen = self.content.as_str().unicode_len();
        if 1 <= clen && clen <= 1000 {
            Ok(())
        } else {
            Err(ValidationError)
        }
    }
}

} // verus!
