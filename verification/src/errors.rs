//! Error taxonomy of the identity subsystem.
//!
//! Business-rule failures carry a machine-readable kind; datastore and
//! crypto failures are collapsed into `Internal` so that no internal
//! detail leaks to callers.

use vstd::prelude::*;

verus! {

/// Everything the identity subsystem can refuse to do, and why.
#[derive(Debug, Clone, Copy, PartialEq, Eq, Structural)]
pub enum AuthError {
    /// The request carries no usable session.
    Unauthenticated,
    /// The session is valid but the principal may not perform the action.
    Unauthorized,
    /// The chosen username is already an account or a pending registration.
    UsernameAlreadyExists,
    /// The pending registration is gone: expired, exhausted, or never made.
    VerificationCodeExpired,
    /// The submitted verification code does not match the issued one.
    InvalidVerificationCode,
    /// Unknown contact or wrong password.
    InvalidCredentials,
    /// The reset capability token failed decryption, expired, or its
    /// embedded hash no longer matches the stored one.
    InvalidResetToken,
    /// The account is permanently banned.
    BannedAccount,
    /// A datastore or crypto failure; details are never surfaced.
    Internal,
}

impl AuthError {
    /// The machine-readable tag attached to responses for this kind.
    pub fn tag(&self) -> (r: &'static str)
        ensures
            self is Unauthenticated ==> r@ == "UNAUTHENTICATED_REQUEST"@,
            self is Unauthorized ==> r@ == "UNAUTHORIZED_REQUEST"@,
            self is UsernameAlreadyExists ==> r@ == "USERNAME_ALREADY_EXISTS"@,
            self is VerificationCodeExpired ==> r@ == "VERIFICATION_CODE_EXPIRED"@,
            self is InvalidVerificationCode ==> r@ == "INVALID_VERIFICATION_CODE"@,
            self is InvalidCredentials ==> r@ == "INVALID_CREDENTIALS"@,
            self is InvalidResetToken ==> r@ == "INVALID_PASSWORD_RESET_TOKEN"@,
            self is BannedAccount ==> r@ == "BANNED_USER"@,
            self is Internal ==> r@ == "INTERNAL_ERROR"@,
    {
        match self {
            AuthError::Unauthenticated => "UNAUTHENTICATED_REQUEST",
            AuthError::Unauthorized => "UNAUTHORIZED_REQUEST",
            AuthError::UsernameAlreadyExists => "USERNAME_ALREADY_EXISTS",
            AuthError::VerificationCodeExpired => "VERIFICATION_CODE_EXPIRED",
            AuthError::InvalidVerificationCode => "INVALID_VERIFICATION_CODE",
            AuthError::InvalidCredentials => "INVALID_CREDENTIALS",
            AuthError::InvalidResetToken => "INVALID_PASSWORD_RESET_TOKEN",
            AuthError::BannedAccount => "BANNED_USER",
            AuthError::Internal => "INTERNAL_ERROR",
        }
    }

    /// A short human-readable description of this kind.
    pub fn message(&self) -> (r: &'static str)
        ensures
            self is Unauthenticated ==> r@ == "Unauthenticated request"@,
            self is Unauthorized ==> r@ == "Unauthorized request"@,
            self is UsernameAlreadyExists ==> r@ == "Username already exists"@,
            self is VerificationCodeExpired ==> r@
                == "Your verification code has expired. Register again."@,
            self is InvalidVerificationCode ==> r@ == "Invalid verification code"@,
            self is InvalidCredentials ==> r@ == "Invalid credentials"@,
            self is InvalidResetToken ==> r@ == "Invalid password reset token"@,
            self is BannedAccount ==> r@ == "User is permanently banned"@,
            self is Internal ==> r@ == "Internal server error"@,
    {
        match self {
            AuthError::Unauthenticated => "Unauthenticated request",
            AuthError::Unauthorized => "Unauthorized request",
            AuthError::UsernameAlreadyExists => "Username already exists",
            AuthError::VerificationCodeExpired => {
                "Your verification code has expired. Register again."
            },
            AuthError::InvalidVerificationCode => "Invalid verification code",
            AuthError::InvalidCredentials => "Invalid credentials",
            AuthError::InvalidResetToken => "Invalid password reset token",
            AuthError::BannedAccount => "User is permanently banned",
            AuthError::Internal => "Internal server error",
        }
    }
}

} // verus!
