//! Pending registrations and the verification engine.
//!
//! A registration begins as a four-cell bundle in the volatile store, all
//! cells keyed by username and expiring together: the candidate account,
//! the candidate secret, a five-digit verification code, and a bounded
//! budget of verification attempts. Verification consumes the bundle: the
//! right code commits candidate account and secret to the durable store
//! as one logical unit; a wrong code burns one attempt; an exhausted
//! budget or an expired bundle ends the registration.

use vstd::prelude::*;

use crate::account::{Account, AccountSecret};
use crate::crypto::hash_matches;
use crate::crypto;
use crate::durable::{DurableStore, Registered};
use crate::errors::AuthError;
use crate::ids;
use crate::volatile::VolatileStore;
use crate::{INITIAL_VERIFICATION_ATTEMPTS, VERIFICATION_CODE_EXPIRY_SECONDS};

verus! {

/// The verification message handed to the mail collaborator when a
/// registration begins. Sending it is the collaborator's job.
#[derive(Debug)]
pub struct RegistrationMail {
    pub email: String,
    pub username: String,
    pub code: u64,
}

/// The shape of a candidate account minted by `begin_registration`: the
/// chosen username, no profile, human, not an admin, stamped `now`.
pub open spec fn candidate_account(acct: Account, username: Seq<char>, now: u64) -> bool {
    &&& acct.username@ == username
    &&& acct.display_name@ == username
    &&& acct.bio is None
    &&& acct.pfp is None
    &&& acct.banner is None
    &&& acct.created_at == now
    &&& acct.modified_at == now
    &&& !acct.admin
    &&& !acct.bot
    &&& acct.owner is None
}

/// How beginning a registration transforms the volatile store: the four
/// cells of the bundle are written under the username with one shared
/// expiry, and nothing else moves.
pub open spec fn pending_written(
    pre: VolatileStore,
    post: VolatileStore,
    username: Seq<char>,
    acct: Account,
    secret: AccountSecret,
    code: u64,
    expiry: u64,
) -> bool {
    &&& post.pending_accounts@ == pre.pending_accounts@.insert(username, (acct, Some(expiry)))
    &&& post.pending_secrets@ == pre.pending_secrets@.insert(username, (secret, Some(expiry)))
    &&& post.pending_codes@ == pre.pending_codes@.insert(username, (code, Some(expiry)))
    &&& post.pending_attempts@ == pre.pending_attempts@.insert(
        username,
        (INITIAL_VERIFICATION_ATTEMPTS, Some(expiry)),
    )
    &&& post.sessions == pre.sessions
    &&& post.session_index == pre.session_index
}

/// How destroying a pending registration transforms the volatile store:
/// all four cells are gone, and nothing else moves.
pub open spec fn pending_dropped(pre: VolatileStore, post: VolatileStore, username: Seq<char>) -> bool {
    &&& post.pending_accounts@ == pre.pending_accounts@.remove(username)
    &&& post.pending_secrets@ == pre.pending_secrets@.remove(username)
    &&& post.pending_codes@ == pre.pending_codes@.remove(username)
    &&& post.pending_attempts@ == pre.pending_attempts@.remove(username)
    &&& post.sessions == pre.sessions
    &&& post.session_index == pre.session_index
}

/// All four cells of the bundle are live at `now`.
pub open spec fn pending_bundle_live(vs: VolatileStore, username: Seq<char>, now: u64) -> bool {
    &&& vs.pending_accounts.live_value(username, now) is Some
    &&& vs.pending_secrets.live_value(username, now) is Some
    &&& vs.pending_codes.live_value(username, now) is Some
    &&& vs.pending_attempts.live_value(username, now) is Some
}

/// Exactly when verification returns the new account: the whole bundle is
/// live, the attempt budget is not exhausted, the submitted code is the
/// issued one, and the durable store can still take the candidate.
pub open spec fn verify_would_succeed(
    db: DurableStore,
    vs: VolatileStore,
    username: Seq<char>,
    code: u64,
    now: u64,
) -> bool {
    &&& pending_bundle_live(vs, username, now)
    &&& vs.pending_attempts.live_value(username, now) != Some(0i64)
    &&& vs.pending_codes.live_value(username, now) == Some(code)
    &&& !db.has_username(vs.pending_accounts.live_value(username, now).unwrap().username@)
    &&& !db.has_account_id(vs.pending_accounts.live_value(username, now).unwrap().id@)
}

/// A burned attempt: one less than before, saturating at the bottom of
/// the counter's range.
pub open spec fn dec_attempts(a: i64) -> i64 {
    if a == i64::MIN {
        i64::MIN
    } else {
        (a - 1) as i64
    }
}

/// Law: a registration begun for a free username verifies immediately.
/// In any store state where the username is not durably taken, a freshly
/// written bundle — before its expiry, with its full attempt budget —
/// satisfies exactly the success condition of `verify_registration` for
/// the issued code, provided the candidate's generated identifier is not
/// already a durable one; the account verification returns is the
/// candidate, whose username is the registered one.
pub proof fn lemma_registration_round_trip(
    db: DurableStore,
    pre: VolatileStore,
    post: VolatileStore,
    username: Seq<char>,
    acct: Account,
    secret: AccountSecret,
    code: u64,
    expiry: u64,
    now2: u64,
)
    requires
        db.wf(),
        pending_written(pre, post, username, acct, secret, code, expiry),
        acct.username@ == username,
        now2 < expiry,
        !db.has_username(username),
        !db.has_account_id(acct.id@),
    ensures
        verify_would_succeed(db, post, username, code, now2),
        post.pending_accounts.live_value(username, now2) == Some(acct),
        post.pending_secrets.live_value(username, now2) == Some(secret),
{
}

/// Law: each wrong code burns exactly one attempt, and after four wrong
/// attempts in a row the budget reads zero, so a fifth call — whatever
/// code it submits, against whatever durable state — cannot succeed;
/// `verify_registration` then reports the registration expired and
/// destroys the bundle.
pub proof fn lemma_attempts_exhausted(
    s0: VolatileStore,
    s1: VolatileStore,
    s2: VolatileStore,
    s3: VolatileStore,
    s4: VolatileStore,
    username: Seq<char>,
    now: u64,
)
    requires
        s0.pending_attempts.live_value(username, now) == Some(INITIAL_VERIFICATION_ATTEMPTS),
        attempt_burned(s0, s1, username, now),
        attempt_burned(s1, s2, username, now),
        attempt_burned(s2, s3, username, now),
        attempt_burned(s3, s4, username, now),
    ensures
        s1.pending_attempts.live_value(username, now) == Some(3i64),
        s2.pending_attempts.live_value(username, now) == Some(2i64),
        s3.pending_attempts.live_value(username, now) == Some(1i64),
        s4.pending_attempts.live_value(username, now) == Some(0i64),
        forall|db: DurableStore, code: u64| !verify_would_succeed(db, s4, username, code, now),
{
}

/// How a wrong code changes the volatile store's attempt cell: the live
/// budget drops by one, and the cell's expiry stays what it was.
pub open spec fn attempt_burned(
    pre: VolatileStore,
    post: VolatileStore,
    username: Seq<char>,
    now: u64,
) -> bool {
    &&& pre.pending_attempts.live_value(username, now) is Some
    &&& post.pending_attempts@ == pre.pending_attempts@.insert(
        username,
        (
            dec_attempts(pre.pending_attempts.live_value(username, now).unwrap()),
            pre.pending_attempts@[username].1,
        ),
    )
}

/// Begin a registration from an already hashed password and an already
/// drawn verification code. Checked in order: the username must not be a
/// durable account nor a live pending registration; a contact already
/// bound to a durable secret is silently accepted without writing
/// anything, so that registration cannot probe which contacts exist.
/// Otherwise the four-cell bundle is written and the verification mail is
/// handed back for sending.
pub fn begin_registration_with_hash(
    db: &DurableStore,
    vs: &mut VolatileStore,
    username: String,
    email: String,
    password_hash: String,
    code: u64,
    now: u64,
) -> (r: Result<Option<RegistrationMail>, AuthError>)
    requires
        db.wf(),
        old(vs).wf(),
        now + VERIFICATION_CODE_EXPIRY_SECONDS <= u64::MAX,
    ensures
        final(vs).wf(),
        db.has_username(username@) ==> r == Err::<Option<RegistrationMail>, AuthError>(
            AuthError::UsernameAlreadyExists,
        ) && *final(vs) == *old(vs),
        !db.has_username(username@) && old(vs).pending_accounts.live_value(username@, now) is Some
            ==> r == Err::<Option<RegistrationMail>, AuthError>(AuthError::UsernameAlreadyExists)
            && *final(vs) == *old(vs),
        !db.has_username(username@) && old(vs).pending_accounts.live_value(username@, now) is None
            && db.has_contact(email@) ==> r == Ok::<Option<RegistrationMail>, AuthError>(None)
            && *final(vs) == *old(vs),
        !db.has_username(username@) && old(vs).pending_accounts.live_value(username@, now) is None
            && !db.has_contact(email@) ==> (match r {
            Ok(Some(mail)) => mail.username@ == username@ && mail.email@ == email@ && mail.code
                == code && exists|acct: Account|
                candidate_account(acct, username@, now) && pending_written(
                    *old(vs),
                    *final(vs),
                    username@,
                    acct,
                    (AccountSecret { contact: email, password_hash, banned: false }),
                    code,
                    (now + VERIFICATION_CODE_EXPIRY_SECONDS) as u64,
                ),
            _ => false,
        }),
{
    if db.find_account_by_username(&username).is_some() {
        return Err(AuthError::UsernameAlreadyExists);
    }
    if vs.has_pending(&username, now) {
        return Err(AuthError::UsernameAlreadyExists);
    }
    if db.find_secret_by_contact(&email).is_some() {
        return Ok(None);
    }
    let mail = RegistrationMail { email: email.clone(), username: username.clone(), code };
    let acct = Account::new(username.clone(), false, None, now);
    let secret = AccountSecret { contact: email, password_hash, banned: false };
    let expiry = Some(now + VERIFICATION_CODE_EXPIRY_SECONDS);
    let ghost acct_snap = acct;
    vs.pending_accounts.set(username.clone(), acct, expiry);
    vs.pending_secrets.set(username.clone(), secret, expiry);
    vs.pending_codes.set(username.clone(), code, expiry);
    vs.pending_attempts.set(username, INITIAL_VERIFICATION_ATTEMPTS, expiry);
    proof {
        assert(candidate_account(acct_snap, username@, now));
    }
    Ok(Some(mail))
}

/// Begin a registration: hash the password, draw a five-digit code, and
/// write the pending bundle. The preconditions of the protocol are
/// checked before the costly hash. A hasher failure surfaces as
/// `Internal` with nothing written.
pub fn begin_registration(
    db: &DurableStore,
    vs: &mut VolatileStore,
    username: String,
    email: String,
    password: String,
    now: u64,
) -> (r: Result<Option<RegistrationMail>, AuthError>)
    requires
        db.wf(),
        old(vs).wf(),
        now + VERIFICATION_CODE_EXPIRY_SECONDS <= u64::MAX,
    ensures
        final(vs).wf(),
        db.has_username(username@) ==> r == Err::<Option<RegistrationMail>, AuthError>(
            AuthError::UsernameAlreadyExists,
        ) && *final(vs) == *old(vs),
        !db.has_username(username@) && old(vs).pending_accounts.live_value(username@, now) is Some
            ==> r == Err::<Option<RegistrationMail>, AuthError>(AuthError::UsernameAlreadyExists)
            && *final(vs) == *old(vs),
        !db.has_username(username@) && old(vs).pending_accounts.live_value(username@, now) is None
            && db.has_contact(email@) ==> r == Ok::<Option<RegistrationMail>, AuthError>(None)
            && *final(vs) == *old(vs),
        !db.has_username(username@) && old(vs).pending_accounts.live_value(username@, now) is None
            && !db.has_contact(email@) ==> (match r {
            Ok(Some(mail)) => mail.username@ == username@ && mail.email@ == email@ && 10000
                <= mail.code <= 99999 && exists|acct: Account, secret: AccountSecret|
                candidate_account(acct, username@, now) && secret.contact@ == email@
                    && hash_matches(secret.password_hash@, password@) && !secret.banned
                    && pending_written(
                    *old(vs),
                    *final(vs),
                    username@,
                    acct,
                    secret,
                    mail.code,
                    (now + VERIFICATION_CODE_EXPIRY_SECONDS) as u64,
                ),
            Ok(None) => false,
            Err(e) => e == AuthError::Internal && *final(vs) == *old(vs),
        }),
{
    if db.find_account_by_username(&username).is_some() {
        return Err(AuthError::UsernameAlreadyExists);
    }
    if vs.has_pending(&username, now) {
        return Err(AuthError::UsernameAlreadyExists);
    }
    if db.find_secret_by_contact(&email).is_some() {
        return Ok(None);
    }
    let password_hash = match crypto::hash_password(password.as_str()) {
        Ok(h) => h,
        Err(_) => {
            return Err(AuthError::Internal);
        },
    };
    let ghost uname_snap = username;
    let ghost email_snap = email;
    let ghost hash_snap = password_hash;
    let code = ids::random_verification_code();
    let r = begin_registration_with_hash(db, vs, username, email, password_hash, code, now);
    proof {
        let s = AccountSecret { contact: email_snap, password_hash: hash_snap, banned: false };
        if !db.has_username(uname_snap@) && old(vs).pending_accounts.live_value(
            uname_snap@,
            now,
        ) is None && !db.has_contact(email_snap@) {
            match r {
                Ok(Some(ref mail)) => {
                    let acct = choose|acct: Account|
                        candidate_account(acct, uname_snap@, now) && pending_written(
                            *old(vs),
                            *vs,
                            uname_snap@,
                            acct,
                            s,
                            code,
                            (now + VERIFICATION_CODE_EXPIRY_SECONDS) as u64,
                        );
                    assert(candidate_account(acct, uname_snap@, now) && s.contact@ == email_snap@
                        && hash_matches(s.password_hash@, password@) && !s.banned
                        && pending_written(
                        *old(vs),
                        *vs,
                        uname_snap@,
                        acct,
                        s,
                        mail.code,
                        (now + VERIFICATION_CODE_EXPIRY_SECONDS) as u64,
                    ));
                },
                _ => {},
            }
        }
    }
    r
}

/// Consume a username-and-code pair against the pending registration.
/// An absent or lapsed candidate fails as expired; an exhausted attempt
/// budget destroys the bundle and fails as expired; a wrong code burns
/// one attempt; the right code commits the candidate account and secret
/// to the durable store, destroys the bundle, and returns the account.
///
/// In a volatile store reached over the wire, the decrement could race
/// the counter cell's expiry and recreate the cell without a TTL. Here
/// each call reads and burns the counter at one instant and the burn
/// keeps the cell's own expiry, so that window cannot open; the counter
/// stays signed all the same, as the store's decrement is.
pub fn verify_registration(
    db: &mut DurableStore,
    vs: &mut VolatileStore,
    username: &String,
    code: u64,
    now: u64,
) -> (r: Result<Account, AuthError>)
    requires
        old(db).wf(),
        old(vs).wf(),
    ensures
        final(db).wf(),
        final(vs).wf(),
        r is Ok <==> verify_would_succeed(*old(db), *old(vs), username@, code, now),
        (match r {
            Ok(a) => ({
                let cand = old(vs).pending_accounts.live_value(username@, now).unwrap();
                let csec = old(vs).pending_secrets.live_value(username@, now).unwrap();
                &&& a == cand
                &&& final(db)@ == old(db)@.push(Registered { account: cand, secret: csec })
                &&& pending_dropped(*old(vs), *final(vs), username@)
            }),
            Err(e) => ({
                let pa = old(vs).pending_accounts.live_value(username@, now);
                let ps = old(vs).pending_secrets.live_value(username@, now);
                let pc = old(vs).pending_codes.live_value(username@, now);
                let pt = old(vs).pending_attempts.live_value(username@, now);
                &&& final(db)@ == old(db)@
                &&& if pa is None {
                    e == AuthError::VerificationCodeExpired && *final(vs) == *old(vs)
                } else if ps is None || pc is None || pt is None {
                    e == AuthError::Internal && *final(vs) == *old(vs)
                } else if pt == Some(0i64) {
                    e == AuthError::VerificationCodeExpired && pending_dropped(
                        *old(vs),
                        *final(vs),
                        username@,
                    )
                } else if pc != Some(code) {
                    &&& e == AuthError::InvalidVerificationCode
                    &&& final(vs).pending_attempts@ == old(vs).pending_attempts@.insert(
                        username@,
                        (dec_attempts(pt.unwrap()), old(vs).pending_attempts@[username@].1),
                    )
                    &&& final(vs).pending_accounts == old(vs).pending_accounts
                    &&& final(vs).pending_secrets == old(vs).pending_secrets
                    &&& final(vs).pending_codes == old(vs).pending_codes
                    &&& final(vs).sessions == old(vs).sessions
                    &&& final(vs).session_index == old(vs).session_index
                } else {
                    e == AuthError::Internal && *final(vs) == *old(vs)
                }
            }),
        }),
{
    let acct = match vs.pending_accounts.get(username, now) {
        Some(a) => a.clone(),
        None => {
            return Err(AuthError::VerificationCodeExpired);
        },
    };
    let secret = match vs.pending_secrets.get(username, now) {
        Some(s) => s.clone(),
        None => {
            return Err(AuthError::Internal);
        },
    };
    let vcode = match vs.pending_codes.get(username, now) {
        Some(c) => *c,
        None => {
            return Err(AuthError::Internal);
        },
    };
    let (attempts, attempts_expiry) = match vs.pending_attempts.get_with_expiry(username, now) {
        Some((a, e)) => (*a, e),
        None => {
            return Err(AuthError::Internal);
        },
    };
    if attempts == 0 {
        vs.drop_pending(username);
        return Err(AuthError::VerificationCodeExpired);
    }
    if code != vcode {
        let burned: i64 = if attempts == i64::MIN {
            i64::MIN
        } else {
            attempts - 1
        };
        vs.pending_attempts.set(username.clone(), burned, attempts_expiry);
        return Err(AuthError::InvalidVerificationCode);
    }
    match db.create_account_and_secret(acct.clone(), secret) {
        Ok(()) => {
            vs.drop_pending(username);
            Ok(acct)
        },
        Err(()) => Err(AuthError::Internal),
    }
}

} // verus!
