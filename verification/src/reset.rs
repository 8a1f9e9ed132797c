//! The password reset protocol.
//!
//! A reset request mints a stateless capability token binding the
//! account's contact to its password hash at issuance; the mail
//! collaborator delivers it. Confirming a reset decrypts the token,
//! re-reads the account by the embedded contact, and re-checks that the
//! embedded hash still equals the stored one: any password change since
//! issuance makes every earlier token stale on its own. On a match, the
//! new password is hashed and stored; the token is never stored and never
//! explicitly invalidated.

use vstd::prelude::*;

use crate::crypto::hash_matches;
use crate::crypto;
use crate::durable::{same_but_hash, DurableStore};
use crate::errors::AuthError;
use crate::session::first_contact_at;
use crate::token::{reset_claims, ResetClaims, ResetKey};

verus! {

/// The reset message handed to the mail collaborator: the capability
/// token, addressed to the contact that requested it.
#[derive(Debug)]
pub struct ResetMail {
    pub email: String,
    pub token: String,
}

/// Request a password reset for a contact. An unknown contact is
/// silently accepted with nothing issued, so that the request cannot
/// probe which contacts exist; a bot account cannot reset its own
/// credential this way. Otherwise the returned mail carries a token
/// binding the contact to its current stored hash.
pub fn request_reset(db: &DurableStore, key: &ResetKey, email: &String) -> (r: Result<
    Option<ResetMail>,
    AuthError,
>)
    requires
        db.wf(),
        key.wf(),
    ensures
        !db.has_contact(email@) ==> r == Ok::<Option<ResetMail>, AuthError>(None),
        match r {
            Ok(None) => !db.has_contact(email@),
            Ok(Some(mail)) => mail.email@ == email@ && exists|i: int|
                #![trigger db@[i]]
                first_contact_at(*db, email@, i) && !db@[i].account.bot && reset_claims(
                    key.bytes(),
                    mail.token@,
                ) == Some((email@, db@[i].secret.password_hash@)),
            Err(e) => exists|i: int|
                #![trigger db@[i]]
                first_contact_at(*db, email@, i) && if db@[i].account.bot {
                    e == AuthError::Unauthenticated
                } else {
                    e == AuthError::Internal
                },
        },
{
    match db.find_secret_by_contact(email) {
        Some((account, secret)) => {
            if account.bot {
                return Err(AuthError::Unauthenticated);
            }
            match key.seal(email.as_str(), secret.password_hash.as_str()) {
                Ok(token) => Ok(Some(ResetMail { email: email.clone(), token })),
                Err(()) => Err(AuthError::Internal),
            }
        },
        None => Ok(None),
    }
}

/// Apply a reset whose claims have already been recovered from a valid
/// token: exactly when some record still binds the claimed contact to the
/// claimed hash, every secret of that contact takes the new hash; any
/// staleness is refused as an invalid token.
pub fn apply_reset(db: &mut DurableStore, claims: &ResetClaims, new_hash: &String) -> (r: Result<
    (),
    AuthError,
>)
    requires
        old(db).wf(),
    ensures
        final(db).wf(),
        r is Ok <==> exists|i: int|
            #![trigger old(db)@[i]]
            0 <= i < old(db)@.len() && old(db)@[i].secret.contact@ == claims.email@ && old(
                db,
            )@[i].secret.password_hash@ == claims.password_hash@,
        r is Ok ==> final(db)@.len() == old(db)@.len() && (forall|k: int|
            #![trigger final(db)@[k]]
            0 <= k < old(db)@.len() ==> same_but_hash(
                old(db)@[k],
                final(db)@[k],
                new_hash@,
                old(db)@[k].secret.contact@ == claims.email@,
            )),
        r is Err ==> r == Err::<(), AuthError>(AuthError::InvalidResetToken) && final(db)@ == old(
            db,
        )@,
{
    if db.has_contact_with_hash(&claims.email, &claims.password_hash) {
        db.update_secret_password(&claims.email, new_hash);
        Ok(())
    } else {
        Err(AuthError::InvalidResetToken)
    }
}

/// Law: a reset capability is self-invalidating. `apply_reset` succeeds
/// exactly while some record still binds the claimed contact to the
/// claimed hash; this lemma gives the other half: once a successful reset
/// has replaced that contact's hashes with a fresh one different from the
/// embedded hash, no record binds the old pair any more, so the same
/// claims are refused as an invalid token — whatever the token's own
/// expiry. (A fresh hash equal to the old one would escape this; the
/// hasher never produces one in practice, but nothing here proves that.)
pub proof fn lemma_reset_self_invalidating(
    db0: Seq<crate::durable::Registered>,
    db1: Seq<crate::durable::Registered>,
    email: Seq<char>,
    old_hash: Seq<char>,
    new_hash: Seq<char>,
)
    requires
        db1.len() == db0.len(),
        forall|k: int|
            #![trigger db1[k]]
            0 <= k < db0.len() ==> same_but_hash(
                db0[k],
                db1[k],
                new_hash,
                db0[k].secret.contact@ == email,
            ),
        new_hash != old_hash,
    ensures
        !exists|i: int|
            #![trigger db1[i]]
            0 <= i < db1.len() && db1[i].secret.contact@ == email && db1[i].secret.password_hash@
                == old_hash,
{
}

/// Confirm a reset with a capability token: decrypt and validate the
/// token, re-check the hash binding against the durable store, and on a
/// match store a fresh hash of the new password. A token that does not
/// decrypt, has expired, or binds a hash that is no longer the stored one
/// is refused as invalid — the costly hash of the new password happens
/// only once the binding has held.
pub fn confirm_reset(
    db: &mut DurableStore,
    key: &ResetKey,
    token: &String,
    new_password: &String,
) -> (r: Result<(), AuthError>)
    requires
        old(db).wf(),
        key.wf(),
    ensures
        final(db).wf(),
        reset_claims(key.bytes(), token@) is None ==> r == Err::<(), AuthError>(
            AuthError::InvalidResetToken,
        ) && final(db)@ == old(db)@,
        (reset_claims(key.bytes(), token@) matches Some(c) && !(exists|i: int|
            #![trigger old(db)@[i]]
            0 <= i < old(db)@.len() && old(db)@[i].secret.contact@ == c.0 && old(
                db,
            )@[i].secret.password_hash@ == c.1)) ==> r == Err::<(), AuthError>(
            AuthError::InvalidResetToken,
        ) && final(db)@ == old(db)@,
        r is Ok ==> (reset_claims(key.bytes(), token@) matches Some(c) && (exists|i: int|
            #![trigger old(db)@[i]]
            0 <= i < old(db)@.len() && old(db)@[i].secret.contact@ == c.0 && old(
                db,
            )@[i].secret.password_hash@ == c.1) && (exists|h: String|
            #![trigger hash_matches(h@, new_password@)]
            hash_matches(h@, new_password@) && final(db)@.len() == old(db)@.len() && (forall|k: int|
                #![trigger final(db)@[k]]
                0 <= k < old(db)@.len() ==> same_but_hash(
                    old(db)@[k],
                    final(db)@[k],
                    h@,
                    old(db)@[k].secret.contact@ == c.0,
                )))),
        r is Err ==> final(db)@ == old(db)@ && (r == Err::<(), AuthError>(
            AuthError::InvalidResetToken,
        ) || r == Err::<(), AuthError>(AuthError::Internal)),
{
    let claims = match key.open(token.as_str()) {
        Some(c) => c,
        None => {
            return Err(AuthError::InvalidResetToken);
        },
    };
    if !db.has_contact_with_hash(&claims.email, &claims.password_hash) {
        return Err(AuthError::InvalidResetToken);
    }
    let new_hash = match crypto::hash_password(new_password.as_str()) {
        Ok(h) => h,
        Err(_) => {
            return Err(AuthError::Internal);
        },
    };
    apply_reset(db, &claims, &new_hash)
}

} // verus!
