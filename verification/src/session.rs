//! The session manager: issue, resolve, enumerate and revoke sessions.
//!
//! A session is an opaque token bound to an account snapshot in the
//! volatile store, with a TTL chosen by principal kind. A parallel session
//! index lists, per account, every token issued to it; the index is what
//! makes bulk revocation possible. Index and sessions are written as
//! separate best-effort operations, never as one transaction, so the
//! contracts speak of each key separately.

use vstd::prelude::*;

use crate::account::Account;
use crate::crypto::hash_matches;
use crate::crypto;
use crate::durable::DurableStore;
use crate::errors::AuthError;
use crate::ids;
use crate::volatile::VolatileStore;
use crate::{BOT_SESSION_EXPIRY, SESSION_EXPIRY_SECONDS};

verus! {

/// The session TTL for a principal kind: thirty days for a human, two
/// hours for a bot.
pub open spec fn session_ttl(bot: bool) -> u64 {
    if bot {
        BOT_SESSION_EXPIRY
    } else {
        SESSION_EXPIRY_SECONDS
    }
}

/// The raw token list stored in the session index for an account,
/// regardless of the index cell's expiry.
pub open spec fn stored_tokens(vs: VolatileStore, account_id: Seq<char>) -> Seq<Seq<char>> {
    if vs.session_index@.contains_key(account_id) {
        vs.session_index@[account_id].0.deep_view()
    } else {
        Seq::empty()
    }
}

/// The token list the session index answers for an account at `now`: the
/// stored list while the index cell is live, nothing once it lapsed.
pub open spec fn index_tokens(vs: VolatileStore, account_id: Seq<char>, now: u64) -> Seq<Seq<char>> {
    match vs.session_index.live_value(account_id, now) {
        Some(toks) => toks.deep_view(),
        None => Seq::empty(),
    }
}

/// How issuing a session transforms the volatile store: the token is
/// bound to the snapshot with the principal kind's TTL, it joins the
/// account's session index, the index's TTL is refreshed to the same
/// horizon, and nothing else moves.
pub open spec fn session_created(
    pre: VolatileStore,
    post: VolatileStore,
    account: Account,
    token: Seq<char>,
    now: u64,
) -> bool {
    &&& post.sessions@ == pre.sessions@.insert(
        token,
        (account, Some((now + session_ttl(account.bot)) as u64)),
    )
    &&& post.session_index@.contains_key(account.id@)
    &&& post.session_index@[account.id@].1 == Some((now + session_ttl(account.bot)) as u64)
    &&& forall|t: Seq<char>|
        #[trigger] stored_tokens(post, account.id@).contains(t) <==> (t == token || index_tokens(
            pre,
            account.id@,
            now,
        ).contains(t))
    &&& post.session_index@.remove(account.id@) == pre.session_index@.remove(account.id@)
    &&& post.pending_accounts == pre.pending_accounts
    &&& post.pending_secrets == pre.pending_secrets
    &&& post.pending_codes == pre.pending_codes
    &&& post.pending_attempts == pre.pending_attempts
}

/// How revoking one session transforms the volatile store: the session
/// key is gone; the token leaves the account's index if the index cell is
/// live, whose expiry stays as it was; nothing else moves.
pub open spec fn session_revoked(
    pre: VolatileStore,
    post: VolatileStore,
    token: Seq<char>,
    account_id: Seq<char>,
    now: u64,
) -> bool {
    &&& post.sessions@ == pre.sessions@.remove(token)
    &&& if pre.session_index.live_value(account_id, now) is Some {
        &&& post.session_index@.contains_key(account_id)
        &&& post.session_index@[account_id].1 == pre.session_index@[account_id].1
        &&& post.session_index@.remove(account_id) == pre.session_index@.remove(account_id)
        &&& forall|t: Seq<char>|
            #[trigger] stored_tokens(post, account_id).contains(t) <==> (index_tokens(
                pre,
                account_id,
                now,
            ).contains(t) && t != token)
    } else {
        post.session_index == pre.session_index
    }
    &&& post.pending_accounts == pre.pending_accounts
    &&& post.pending_secrets == pre.pending_secrets
    &&& post.pending_codes == pre.pending_codes
    &&& post.pending_attempts == pre.pending_attempts
}

/// How revoking every session of an account transforms the volatile
/// store: each indexed token's session key is gone, the index itself is
/// gone, and nothing else moves. A session key absent from the index is
/// not found and survives.
pub open spec fn all_sessions_revoked(
    pre: VolatileStore,
    post: VolatileStore,
    account_id: Seq<char>,
    now: u64,
) -> bool {
    &&& post.sessions@ == pre.sessions@.remove_keys(index_tokens(pre, account_id, now).to_set())
    &&& post.session_index@ == pre.session_index@.remove(account_id)
    &&& post.pending_accounts == pre.pending_accounts
    &&& post.pending_secrets == pre.pending_secrets
    &&& post.pending_codes == pre.pending_codes
    &&& post.pending_attempts == pre.pending_attempts
}

/// The record at index `i` is the first whose secret carries contact `c`.
pub open spec fn first_contact_at(db: DurableStore, c: Seq<char>, i: int) -> bool {
    &&& 0 <= i < db@.len()
    &&& db@[i].secret.contact@ == c
    &&& forall|j: int| 0 <= j < i ==> db@[j].secret.contact@ != c
}

proof fn lemma_contains_push(s: Seq<Seq<char>>, x: Seq<char>)
    ensures
        forall|t: Seq<char>| #[trigger] s.push(x).contains(t) <==> (s.contains(t) || t == x),
{
    assert forall|t: Seq<char>| #[trigger] s.push(x).contains(t) implies (s.contains(t) || t
        == x) by {
        let j = choose|j: int| 0 <= j < s.push(x).len() && s.push(x)[j] == t;
        if j < s.len() {
            assert(s[j] == t);
        }
    };
    assert forall|t: Seq<char>| (s.contains(t) || t == x) implies #[trigger] s.push(x).contains(
        t,
    ) by {
        if t == x {
            assert(s.push(x)[s.len() as int] == t);
        } else {
            let j = choose|j: int| 0 <= j < s.len() && s[j] == t;
            assert(s.push(x)[j] == t);
        }
    };
}

/// Whether a string with the view of `needle` is among the elements of
/// `v`.
fn contains_token(v: &Vec<String>, needle: &String) -> (r: bool)
    ensures
        r == v.deep_view().contains(needle@),
{
    let n = v.len();
    let mut i: usize = 0;
    while i < n
        invariant
            n == v@.len(),
            i <= n,
            forall|j: int| 0 <= j < i ==> v@[j]@ != needle@,
        decreases n - i,
    {
        if v[i] == *needle {
            proof {
                assert(v.deep_view()[i as int] == needle@);
            }
            return true;
        }
        i = i + 1;
    }
    proof {
        if v.deep_view().contains(needle@) {
            let j = choose|j: int| 0 <= j < v.deep_view().len() && v.deep_view()[j] == needle@;
            assert(v@[j]@ == needle@);
        }
    }
    false
}

/// A value-equal copy of a token list.
fn clone_tokens(v: &Vec<String>) -> (r: Vec<String>)
    ensures
        r@ == v@,
{
    let n = v.len();
    let mut r: Vec<String> = Vec::new();
    let mut i: usize = 0;
    while i < n
        invariant
            n == v@.len(),
            i <= n,
            r@ == v@.take(i as int),
        decreases n - i,
    {
        r.push(v[i].clone());
        proof {
            assert(r@ =~= v@.take(i + 1));
        }
        i = i + 1;
    }
    proof {
        assert(v@.take(n as int) =~= v@);
    }
    r
}

/// The list without any element equal to `needle`, others kept.
fn remove_token(v: &Vec<String>, needle: &String) -> (r: Vec<String>)
    ensures
        forall|t: Seq<char>|
            #[trigger] r.deep_view().contains(t) <==> (v.deep_view().contains(t) && t != needle@),
{
    let n = v.len();
    let mut r: Vec<String> = Vec::new();
    let mut i: usize = 0;
    while i < n
        invariant
            n == v@.len(),
            i <= n,
            forall|t: Seq<char>|
                #[trigger] r.deep_view().contains(t) <==> (v.deep_view().take(i as int).contains(t)
                    && t != needle@),
        decreases n - i,
    {
        let ghost pre = r.deep_view();
        if !(v[i] == *needle) {
            r.push(v[i].clone());
            proof {
                assert(r.deep_view() =~= pre.push(v.deep_view()[i as int]));
                lemma_contains_push(pre, v.deep_view()[i as int]);
            }
        }
        proof {
            assert(v.deep_view().take(i + 1) =~= v.deep_view().take(i as int).push(
                v.deep_view()[i as int],
            ));
            lemma_contains_push(v.deep_view().take(i as int), v.deep_view()[i as int]);
        }
        i = i + 1;
    }
    proof {
        assert(v.deep_view().take(n as int) =~= v.deep_view());
    }
    r
}

/// Issue a session for the account: a fresh opaque token bound to the
/// snapshot, the token added to the account's session index, the index's
/// TTL refreshed. Three separate writes, not a transaction.
pub fn create_session(vs: &mut VolatileStore, account: &Account, now: u64) -> (token: String)
    requires
        old(vs).wf(),
        now + SESSION_EXPIRY_SECONDS <= u64::MAX,
        now + BOT_SESSION_EXPIRY <= u64::MAX,
    ensures
        final(vs).wf(),
        session_created(*old(vs), *final(vs), *account, token@, now),
{
    let token = ids::new_id();
    let ttl = if account.bot {
        BOT_SESSION_EXPIRY
    } else {
        SESSION_EXPIRY_SECONDS
    };
    let expires = Some(now + ttl);

    vs.sessions.set(token.clone(), account.clone(), expires);

    let mut toks = match vs.session_index.get(&account.id, now) {
        Some(existing) => clone_tokens(existing),
        None => Vec::new(),
    };
    let ghost base: Seq<Seq<char>> = toks.deep_view();
    proof {
        assert(base =~= index_tokens(*old(vs), account.id@, now));
    }
    if !contains_token(&toks, &token) {
        toks.push(token.clone());
        proof {
            assert(toks.deep_view() =~= base.push(token@));
            lemma_contains_push(base, token@);
        }
    }
    let ghost dv: Seq<Seq<char>> = toks.deep_view();
    vs.session_index.set(account.id.clone(), toks, expires);
    proof {
        assert(vs.session_index@.remove(account.id@) =~= old(vs).session_index@.remove(
            account.id@,
        ));
        assert(stored_tokens(*vs, account.id@) == dv);
    }
    token
}

/// Resolve a session token to its account snapshot. Absence means "not
/// authenticated", never an error.
pub fn resolve_session(vs: &VolatileStore, token: &String, now: u64) -> (r: Option<Account>)
    requires
        vs.wf(),
    ensures
        r == vs.sessions.live_value(token@, now),
{
    match vs.sessions.get(token, now) {
        Some(a) => Some(a.clone()),
        None => None,
    }
}

/// Revoke one session: delete its key and remove the token from the
/// account's index, two separate writes.
pub fn revoke_session(vs: &mut VolatileStore, token: &String, account_id: &String, now: u64)
    requires
        old(vs).wf(),
    ensures
        final(vs).wf(),
        session_revoked(*old(vs), *final(vs), token@, account_id@, now),
{
    vs.sessions.remove(token);
    let filtered = match vs.session_index.get_with_expiry(account_id, now) {
        Some((toks, expiry)) => Some((remove_token(toks, token), expiry)),
        None => None,
    };
    match filtered {
        Some((toks, expiry)) => {
            let ghost dv: Seq<Seq<char>> = toks.deep_view();
            vs.session_index.set(account_id.clone(), toks, expiry);
            proof {
                assert(vs.session_index@.remove(account_id@) =~= old(vs).session_index@.remove(
                    account_id@,
                ));
                assert(stored_tokens(*vs, account_id@) == dv);
            }
        },
        None => {},
    }
}

/// Revoke every session the account's index lists, then the index itself:
/// one delete per member plus one for the index, all best-effort. A
/// session issued concurrently with this sweep may survive.
pub fn revoke_all_sessions(vs: &mut VolatileStore, account_id: &String, now: u64)
    requires
        old(vs).wf(),
    ensures
        final(vs).wf(),
        all_sessions_revoked(*old(vs), *final(vs), account_id@, now),
{
    let toks: Vec<String> = match vs.session_index.get(account_id, now) {
        Some(v) => clone_tokens(v),
        None => Vec::new(),
    };
    let ghost dv: Seq<Seq<char>> = toks.deep_view();
    proof {
        assert(dv =~= index_tokens(*old(vs), account_id@, now));
        assert(dv.take(0).to_set() =~= Set::<Seq<char>>::empty());
        assert(old(vs).sessions@.remove_keys(dv.take(0).to_set()) =~= old(vs).sessions@);
    }
    let n = toks.len();
    let mut i: usize = 0;
    while i < n
        invariant
            vs.wf(),
            n == toks@.len(),
            i <= n,
            dv == toks.deep_view(),
            vs.sessions@ == old(vs).sessions@.remove_keys(dv.take(i as int).to_set()),
            vs.session_index == old(vs).session_index,
            vs.pending_accounts == old(vs).pending_accounts,
            vs.pending_secrets == old(vs).pending_secrets,
            vs.pending_codes == old(vs).pending_codes,
            vs.pending_attempts == old(vs).pending_attempts,
        decreases n - i,
    {
        vs.sessions.remove(&toks[i]);
        proof {
            lemma_contains_push(dv.take(i as int), dv[i as int]);
            assert(dv.take(i + 1) =~= dv.take(i as int).push(dv[i as int]));
            assert(dv.take(i + 1).to_set() =~= dv.take(i as int).to_set().insert(dv[i as int]));
            assert(old(vs).sessions@.remove_keys(dv.take(i as int).to_set()).remove(dv[i as int])
                =~= old(vs).sessions@.remove_keys(dv.take(i + 1).to_set()));
        }
        i = i + 1;
    }
    proof {
        assert(dv.take(n as int) =~= dv);
    }
    vs.session_index.remove(account_id);
}

/// Law: a created session resolves to its snapshot until it is revoked or
/// its TTL elapses; revoking it makes it unresolvable at once and removes
/// its token from the account's session index.
pub proof fn lemma_session_lifecycle(
    pre: VolatileStore,
    created: VolatileStore,
    revoked: VolatileStore,
    account: Account,
    token: Seq<char>,
    now: u64,
    later: u64,
)
    requires
        now + session_ttl(account.bot) <= u64::MAX,
        session_created(pre, created, account, token, now),
        now <= later < now + session_ttl(account.bot),
        session_revoked(created, revoked, token, account.id@, later),
    ensures
        created.sessions.live_value(token, later) == Some(account),
        forall|elapsed: u64|
            elapsed >= now + session_ttl(account.bot) ==> #[trigger] created.sessions.live_value(
                token,
                elapsed,
            ) is None,
        revoked.sessions.live_value(token, later) is None,
        !index_tokens(revoked, account.id@, later).contains(token),
{
    assert(created.session_index.live_value(account.id@, later) is Some);
    assert(revoked.session_index@.contains_key(account.id@));
    assert(revoked.session_index@[account.id@].1 == Some((now + session_ttl(account.bot)) as u64));
    assert(index_tokens(revoked, account.id@, later) == stored_tokens(revoked, account.id@));
}

/// Check a contact and password against the durable store. The first
/// record bound to the contact decides; an unknown contact and a wrong
/// password answer with the identical error, so that a failed login
/// reveals nothing about which contacts are registered.
pub fn login_user(db: &DurableStore, email: &String, password: &String) -> (r: Result<
    Account,
    AuthError,
>)
    requires
        db.wf(),
    ensures
        match r {
            Ok(a) => exists|i: int|
                #![trigger db@[i]]
                first_contact_at(*db, email@, i) && db@[i].account == a && hash_matches(
                    db@[i].secret.password_hash@,
                    password@,
                ),
            Err(e) => e == AuthError::InvalidCredentials && (!db.has_contact(email@) || exists|
                i: int,
            |
                #![trigger db@[i]]
                first_contact_at(*db, email@, i) && !hash_matches(
                    db@[i].secret.password_hash@,
                    password@,
                )),
        },
{
    match db.find_secret_by_contact(email) {
        Some((account, secret)) => {
            if crypto::check_password(secret.password_hash.as_str(), password.as_str()) {
                Ok(account)
            } else {
                Err(AuthError::InvalidCredentials)
            }
        },
        None => Err(AuthError::InvalidCredentials),
    }
}

/// Log a principal in: check the credentials, and on success issue a
/// session for the matched account.
pub fn login(
    db: &DurableStore,
    vs: &mut VolatileStore,
    email: &String,
    password: &String,
    now: u64,
) -> (r: Result<(Account, String), AuthError>)
    requires
        db.wf(),
        old(vs).wf(),
        now + SESSION_EXPIRY_SECONDS <= u64::MAX,
        now + BOT_SESSION_EXPIRY <= u64::MAX,
    ensures
        final(vs).wf(),
        match r {
            Ok(p) => session_created(*old(vs), *final(vs), p.0, p.1@, now) && exists|i: int|
                #![trigger db@[i]]
                first_contact_at(*db, email@, i) && db@[i].account == p.0 && hash_matches(
                    db@[i].secret.password_hash@,
                    password@,
                ),
            Err(e) => *final(vs) == *old(vs) && e == AuthError::InvalidCredentials && (
            !db.has_contact(email@) || exists|i: int|
                #![trigger db@[i]]
                first_contact_at(*db, email@, i) && !hash_matches(
                    db@[i].secret.password_hash@,
                    password@,
                )),
        },
{
    match login_user(db, email, password) {
        Ok(account) => {
            let token = create_session(vs, &account, now);
            Ok((account, token))
        },
        Err(e) => Err(e),
    }
}

} // verus!
