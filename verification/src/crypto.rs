//! Password hashing and password-strength scoring.
//!
//! Hashing is delegated to a memory-hard outside hasher. A produced hash
//! embeds its salt and parameters, so whether a hash verifies against a
//! password is a function of the two strings alone; that function is given
//! the name `hash_matches` and every contract above speaks through it.

use argon2::password_hash::phc::PasswordHash;
use argon2::password_hash::{PasswordHasher, PasswordVerifier};
use argon2::Argon2;

use vstd::prelude::*;

use crate::MIN_PASSWORD_SCORE;

verus! {

/// What the password verifier answers for a hash string and a password:
/// salt and parameters are embedded in the hash string, so the answer is a
/// function of the two strings alone. A string that is not a well-formed
/// hash matches nothing.
pub uninterp spec fn hash_matches(hash: Seq<char>, password: Seq<char>) -> bool;

/// Relies on Argon2::hash_password (default parameters, fresh random
/// salt): the produced PHC string verifies against the hashed password.
#[verifier::external_body]
pub(crate) fn hash_password(password: &str) -> (r: Result<String, ()>)
    ensures
        r matches Ok(h) ==> hash_matches(h@, password@),
{
    match Argon2::default().hash_password(password.as_bytes()) {
        Ok(h) => Ok(h.to_string()),
        Err(_) => Err(()),
    }
}

/// Relies on Argon2::verify_password: whether the stored hash string
/// verifies against the presented password.
#[verifier::external_body]
pub(crate) fn check_password(hash: &str, password: &str) -> (r: bool)
    ensures
        r == hash_matches(hash@, password@),
{
    match PasswordHash::new(hash) {
        Ok(parsed) => Argon2::default().verify_password(password.as_bytes(), &parsed).is_ok(),
        Err(_) => false,
    }
}

/// Relies on zxcvbn::zxcvbn: a strength estimate for the password shown
/// beside the given user inputs, on a scale of 0 (trivial) to 4 (strong).
/// The estimate leans on the estimator's dictionaries and its notion of
/// the current date, so only the scale is promised; the acceptance
/// decision over the estimate is verified separately.
#[verifier::external_body]
pub(crate) fn password_strength(password: &str, username: &str, email: &str) -> (r: u8)
    ensures
        r <= 4,
{
    u8::from(zxcvbn::zxcvbn(password, &[username, email]).score())
}

/// Whether a strength score clears the acceptance bar.
pub fn strength_accepted(score: u8) -> (r: bool)
    ensures
        r == (score >= MIN_PASSWORD_SCORE),
{
    score >= MIN_PASSWORD_SCORE
}

/// Input validation for chosen passwords: the candidate is scored beside
/// the username and email it would protect.
pub struct PasswordValidator<'a>(pub &'a str, pub &'a str);

impl<'a> PasswordValidator<'a> {
    /// Score the candidate and accept it exactly when the score reaches
    /// `MIN_PASSWORD_SCORE`; either way the score comes back with the
    /// answer.
    pub fn check(&self, value: &String) -> (r: Result<u8, u8>)
        ensures
            r matches Ok(s) ==> MIN_PASSWORD_SCORE <= s <= 4,
            r matches Err(s) ==> s < MIN_PASSWORD_SCORE,
    {
        let score = password_strength(value.as_str(), self.0, self.1);
        if strength_accepted(score) {
            Ok(score)
        } else {
            Err(score)
        }
    }
}

} // verus!
