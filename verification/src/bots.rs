//! The bot credential issuer.
//!
//! A bot is a constrained sub-account owned by a human account. It is
//! committed to the durable store directly, with no pending or
//! verification step: its contact and its password are generated opaque
//! strings, and the only time the plaintext password leaves the system is
//! inside the returned credential, written `contact@password`. Every
//! bot-scoped mutation first proves ownership and fails closed.

use vstd::prelude::*;
use vstd::string::StringExecFns;

use crate::account::{owner_iff_bot, Account, AccountSecret};
use crate::crypto::hash_matches;
use crate::crypto;
use crate::durable::{same_but_hash, DurableStore, Registered};
use crate::errors::AuthError;
use crate::ids;
use crate::session::{all_sessions_revoked, session_created, session_revoked};
use crate::session;
use crate::volatile::VolatileStore;
use crate::{BOT_SESSION_EXPIRY, SESSION_EXPIRY_SECONDS};

verus! {

/// The shape of a freshly issued bot account: the chosen username, owned
/// by its creator, no profile, never an admin.
pub open spec fn bot_account(acct: Account, username: Seq<char>, owner_id: Seq<char>, now: u64) -> bool {
    &&& acct.username@ == username
    &&& acct.display_name@ == username
    &&& acct.bio is None
    &&& acct.pfp is None
    &&& acct.banner is None
    &&& acct.created_at == now
    &&& acct.modified_at == now
    &&& !acct.admin
    &&& acct.bot
    &&& (acct.owner matches Some(o) && o@ == owner_id)
}

/// Derive a bot account for an owner: the same uniqueness checks as a
/// registration, but account and secret are committed directly. Returns
/// the one-time credential and the new account.
pub fn create_bot(
    db: &mut DurableStore,
    vs: &VolatileStore,
    owner_id: &String,
    username: String,
    now: u64,
) -> (r: Result<(String, Account), AuthError>)
    requires
        old(db).wf(),
        vs.wf(),
    ensures
        final(db).wf(),
        old(db).has_username(username@) ==> (r matches Err(e) && e
            == AuthError::UsernameAlreadyExists && final(db)@ == old(db)@),
        !old(db).has_username(username@) && vs.pending_accounts.live_value(username@, now) is Some
            ==> (r matches Err(e) && e == AuthError::UsernameAlreadyExists && final(db)@
            == old(db)@),
        !old(db).has_username(username@) && vs.pending_accounts.live_value(username@, now) is None
            ==> (match r {
            Ok(p) => exists|secret: AccountSecret, password: Seq<char>|
                bot_account(p.1, username@, owner_id@, now) && secret.contact@ + "@"@ + password
                    == p.0@ && hash_matches(secret.password_hash@, password) && !secret.banned
                    && final(db)@ == old(db)@.push(Registered { account: p.1, secret }),
            Err(e) => e == AuthError::Internal && final(db)@ == old(db)@,
        }),
{
    if db.find_account_by_username(&username).is_some() {
        return Err(AuthError::UsernameAlreadyExists);
    }
    if vs.has_pending(&username, now) {
        return Err(AuthError::UsernameAlreadyExists);
    }

    let contact = ids::new_id();
    let password = ids::new_id();
    let creds = contact.clone().concat("@").concat(password.as_str());

    let password_hash = match crypto::hash_password(password.as_str()) {
        Ok(h) => h,
        Err(_) => {
            return Err(AuthError::Internal);
        },
    };

    let ghost uname_snap = username@;
    let bot = Account::new(username, true, Some(owner_id.clone()), now);
    let secret = AccountSecret { contact, password_hash, banned: false };
    let ghost secret_snap = secret;
    let ghost password_snap = password@;

    match db.create_account_and_secret(bot.clone(), secret) {
        Ok(()) => {
            proof {
                assert(bot_account(bot, uname_snap, owner_id@, now) && secret_snap.contact@ + "@"@
                    + password_snap == creds@ && hash_matches(
                    secret_snap.password_hash@,
                    password_snap,
                ) && !secret_snap.banned && db@ == old(db)@.push(
                    Registered { account: bot, secret: secret_snap },
                ));
            }
            Ok((creds, bot))
        },
        Err(()) => Err(AuthError::Internal),
    }
}

/// Prove that a bot belongs to a user before any bot-scoped mutation: the
/// bot must exist and its owner reference must name the user. Fails
/// closed as unauthorized.
pub fn verify_bot_belongs_to_user(db: &DurableStore, user_id: &String, bot_id: &String) -> (r:
    Result<Account, AuthError>)
    requires
        db.wf(),
    ensures
        match r {
            Ok(bot) => bot.id@ == bot_id@ && (bot.owner matches Some(o) && o@ == user_id@) && exists|
                i: int,
            | 0 <= i < db@.len() && db@[i].account == bot,
            Err(e) => e == AuthError::Unauthorized && !exists|i: int|
                0 <= i < db@.len() && db@[i].account.id@ == bot_id@ && (db@[i].account.owner matches
                    Some(o) && o@ == user_id@),
        },
{
    match db.find_account_by_id(bot_id) {
        Some(bot) => {
            let owned = match &bot.owner {
                Some(o) => *o == *user_id,
                None => false,
            };
            if owned {
                Ok(bot)
            } else {
                proof {
                    let i = choose|i: int| 0 <= i < db@.len() && db@[i].account == bot;
                    assert forall|j: int|
                        0 <= j < db@.len() && db@[j].account.id@ == bot_id@ implies !(
                    db@[j].account.owner matches Some(o) && o@ == user_id@) by {
                        if j != i {
                            assert(db@[i].account.id@ != db@[j].account.id@);
                        }
                    };
                }
                Err(AuthError::Unauthorized)
            }
        },
        None => Err(AuthError::Unauthorized),
    }
}

/// Regenerate a bot's password: its identity stays, its secret's hash is
/// replaced, and the new credential is returned. The caller must have
/// proved ownership already.
pub fn reset_bot_password(db: &mut DurableStore, bot_id: &String) -> (r: Result<String, AuthError>)
    requires
        old(db).wf(),
    ensures
        final(db).wf(),
        !old(db).has_account_id(bot_id@) ==> r is Err,
        match r {
            Ok(creds) => exists|password: Seq<char>, h: String, i: int|
                #![trigger hash_matches(h@, password), old(db)@[i]]
                hash_matches(h@, password) && 0 <= i < old(db)@.len() && old(db)@[i].account.id@
                    == bot_id@ && creds@ == old(db)@[i].secret.contact@ + "@"@ + password
                    && final(db)@.len() == old(db)@.len() && (forall|k: int|
                    #![trigger final(db)@[k]]
                    0 <= k < old(db)@.len() ==> same_but_hash(
                        old(db)@[k],
                        final(db)@[k],
                        h@,
                        old(db)@[k].account.id@ == bot_id@,
                    )),
            Err(e) => e == AuthError::Internal && final(db)@ == old(db)@,
        },
{
    let password = ids::new_id();
    let password_hash = match crypto::hash_password(password.as_str()) {
        Ok(h) => h,
        Err(_) => {
            return Err(AuthError::Internal);
        },
    };
    let ghost hash_snap = password_hash;
    let ghost password_snap = password@;
    match db.update_secret_password_by_account(bot_id, &password_hash) {
        Some(contact) => {
            let ghost contact_snap = contact@;
            let creds = contact.concat("@").concat(password.as_str());
            proof {
                let i = choose|i: int|
                    0 <= i < old(db)@.len() && old(db)@[i].account.id@ == bot_id@ && old(
                        db,
                    )@[i].secret.contact@ == contact_snap;
                assert(hash_matches(hash_snap@, password_snap) && 0 <= i < old(db)@.len() && old(
                    db,
                )@[i].account.id@ == bot_id@ && creds@ == old(db)@[i].secret.contact@ + "@"@
                    + password_snap);
                assert(exists|password: Seq<char>, h: String, j: int|
                    #![trigger hash_matches(h@, password), old(db)@[j]]
                    hash_matches(h@, password) && 0 <= j < old(db)@.len() && old(
                        db,
                    )@[j].account.id@ == bot_id@ && creds@ == old(db)@[j].secret.contact@ + "@"@
                        + password && db@.len() == old(db)@.len() && (forall|k: int|
                        #![trigger db@[k]]
                        0 <= k < old(db)@.len() ==> same_but_hash(
                            old(db)@[k],
                            db@[k],
                            h@,
                            old(db)@[k].account.id@ == bot_id@,
                        ))) by {
                    assert(forall|k: int|
                        #![trigger db@[k]]
                        0 <= k < old(db)@.len() ==> same_but_hash(
                            old(db)@[k],
                            db@[k],
                            hash_snap@,
                            old(db)@[k].account.id@ == bot_id@,
                        ));
                };
            }
            Ok(creds)
        },
        None => Err(AuthError::Internal),
    }
}

/// Regenerate an owned bot's credential and force every one of its
/// sessions out: ownership proved first, then the password replaced, then
/// the bot's session index swept.
pub fn reset_bot_credential(
    db: &mut DurableStore,
    vs: &mut VolatileStore,
    user_id: &String,
    bot_id: &String,
    now: u64,
) -> (r: Result<(String, Account), AuthError>)
    requires
        old(db).wf(),
        old(vs).wf(),
    ensures
        final(db).wf(),
        final(vs).wf(),
        !(exists|i: int|
            0 <= i < old(db)@.len() && old(db)@[i].account.id@ == bot_id@ && (
            old(db)@[i].account.owner matches Some(o) && o@ == user_id@)) ==> r == Err::<
            (String, Account),
            AuthError,
        >(AuthError::Unauthorized),
        match r {
            Ok(p) => p.1.id@ == bot_id@ && (p.1.owner matches Some(o) && o@ == user_id@) && (exists|
                i: int,
            | 0 <= i < old(db)@.len() && old(db)@[i].account == p.1) && all_sessions_revoked(
                *old(vs),
                *final(vs),
                bot_id@,
                now,
            ) && (exists|password: Seq<char>, h: String, i: int|
                #![trigger hash_matches(h@, password), old(db)@[i]]
                hash_matches(h@, password) && 0 <= i < old(db)@.len() && old(db)@[i].account.id@
                    == bot_id@ && p.0@ == old(db)@[i].secret.contact@ + "@"@ + password
                    && final(db)@.len() == old(db)@.len() && (forall|k: int|
                    #![trigger final(db)@[k]]
                    0 <= k < old(db)@.len() ==> same_but_hash(
                        old(db)@[k],
                        final(db)@[k],
                        h@,
                        old(db)@[k].account.id@ == bot_id@,
                    ))),
            Err(e) => *final(vs) == *old(vs) && final(db)@ == old(db)@ && (e == AuthError::Unauthorized
                ==> !exists|i: int|
                0 <= i < old(db)@.len() && old(db)@[i].account.id@ == bot_id@ && (
                old(db)@[i].account.owner matches Some(o) && o@ == user_id@)),
        },
{
    let bot = match verify_bot_belongs_to_user(db, user_id, bot_id) {
        Ok(b) => {
            proof {
                let i = choose|i: int| 0 <= i < db@.len() && db@[i].account == b;
                assert(db@[i].account.id@ == bot_id@ && (db@[i].account.owner matches Some(o)
                    && o@ == user_id@));
            }
            b
        },
        Err(e) => {
            return Err(e);
        },
    };
    let creds = match reset_bot_password(db, bot_id) {
        Ok(c) => c,
        Err(e) => {
            return Err(e);
        },
    };
    session::revoke_all_sessions(vs, bot_id, now);
    Ok((creds, bot))
}

/// Sweep every session of an owned bot: ownership proved first.
pub fn logout_all_bot(
    db: &DurableStore,
    vs: &mut VolatileStore,
    user_id: &String,
    bot_id: &String,
    now: u64,
) -> (r: Result<(), AuthError>)
    requires
        db.wf(),
        old(vs).wf(),
    ensures
        final(vs).wf(),
        match r {
            Ok(()) => (exists|i: int|
                0 <= i < db@.len() && db@[i].account.id@ == bot_id@ && (db@[i].account.owner matches
                    Some(o) && o@ == user_id@)) && all_sessions_revoked(
                *old(vs),
                *final(vs),
                bot_id@,
                now,
            ),
            Err(e) => e == AuthError::Unauthorized && *final(vs) == *old(vs) && !exists|i: int|
                0 <= i < db@.len() && db@[i].account.id@ == bot_id@ && (db@[i].account.owner matches
                    Some(o) && o@ == user_id@),
        },
{
    match verify_bot_belongs_to_user(db, user_id, bot_id) {
        Ok(bot) => {
            proof {
                let i = choose|i: int| 0 <= i < db@.len() && db@[i].account == bot;
                assert(db@[i].account.id@ == bot_id@);
            }
            session::revoke_all_sessions(vs, bot_id, now);
            Ok(())
        },
        Err(e) => Err(e),
    }
}

/// Switch a human's session over to an owned bot: ownership proved, the
/// human's current session revoked, a bot session issued.
pub fn login_as_bot(
    db: &DurableStore,
    vs: &mut VolatileStore,
    user_id: &String,
    current_token: &String,
    bot_id: &String,
    now: u64,
) -> (r: Result<(Account, String), AuthError>)
    requires
        db.wf(),
        old(vs).wf(),
        now + SESSION_EXPIRY_SECONDS <= u64::MAX,
        now + BOT_SESSION_EXPIRY <= u64::MAX,
    ensures
        final(vs).wf(),
        match r {
            Ok(p) => p.0.id@ == bot_id@ && p.0.bot && (p.0.owner matches Some(o) && o@ == user_id@)
                && (exists|i: int| 0 <= i < db@.len() && db@[i].account == p.0) && exists|
                mid: VolatileStore,
            |
                session_revoked(*old(vs), mid, current_token@, user_id@, now) && session_created(
                    mid,
                    *final(vs),
                    p.0,
                    p.1@,
                    now,
                ),
            Err(e) => e == AuthError::Unauthorized && *final(vs) == *old(vs) && !exists|i: int|
                0 <= i < db@.len() && db@[i].account.id@ == bot_id@ && (db@[i].account.owner matches
                    Some(o) && o@ == user_id@),
        },
{
    let bot = match verify_bot_belongs_to_user(db, user_id, bot_id) {
        Ok(b) => {
            proof {
                let i = choose|i: int| 0 <= i < db@.len() && db@[i].account == b;
                assert(owner_iff_bot(db@[i].account));
            }
            b
        },
        Err(e) => {
            return Err(e);
        },
    };
    session::revoke_session(vs, current_token, user_id, now);
    let ghost mid_snap = *vs;
    let token = session::create_session(vs, &bot, now);
    proof {
        assert(session_revoked(*old(vs), mid_snap, current_token@, user_id@, now)
            && session_created(mid_snap, *vs, bot, token@, now));
    }
    Ok((bot, token))
}

} // verus!
