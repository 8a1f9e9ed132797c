//! Identity and session core of a forum backend.
//!
//! The subsystem turns an unverified registration into a durable account,
//! issues and revokes multi-device sessions, derives constrained bot
//! sub-accounts, and implements a stateless password-reset capability.
//! Durable account records and the volatile, TTL-driven key space are
//! modelled as explicit values, so every state transition of the protocol
//! is verified; password hashing, token encryption, identifier generation
//! and password-strength scoring are delegated to outside crates behind
//! small trusted wrappers.

pub mod account;
pub mod bots;
pub mod crypto;
pub mod durable;
pub mod errors;
pub mod forums;
pub mod guard;
mod ids;
pub mod page;
pub mod registration;
pub mod reset;
pub mod session;
pub mod template;
pub mod token;
pub mod ttl;
pub mod volatile;

use vstd::prelude::*;

verus! {

/// Verification codes expire five minutes after registration begins.
pub const VERIFICATION_CODE_EXPIRY_SECONDS: u64 = 5 * 60;

/// Human sessions last thirty days.
pub const SESSION_EXPIRY_SECONDS: u64 = 30 * 24 * 60 * 60;

/// Bot sessions last two hours.
pub const BOT_SESSION_EXPIRY: u64 = 2 * 60 * 60;

/// A pending registration starts with this many verification attempts.
pub const INITIAL_VERIFICATION_ATTEMPTS: i64 = 4;

/// Minimum acceptable password strength score (scale of 0 to 4).
pub const MIN_PASSWORD_SCORE: u8 = 3;

} // verus!
