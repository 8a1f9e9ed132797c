//! The volatile store: every expiring key the subsystem writes.
//!
//! Six key prefixes share one TTL-driven key space: the four co-expiring
//! cells of a pending registration (candidate account, candidate secret,
//! verification code, remaining attempts, all keyed by username), the
//! sessions (keyed by token), and the per-account session index. Keeping
//! the four pending cells separate preserves the real key layout: any one
//! of them can expire or survive independently of its siblings.

use vstd::prelude::*;

use crate::account::{owner_iff_bot, Account, AccountSecret};
use crate::ttl::TtlTable;

verus! {

pub struct VolatileStore {
    /// Candidate account of a pending registration, keyed by username.
    pub pending_accounts: TtlTable<Account>,
    /// Candidate secret of a pending registration, keyed by username.
    pub pending_secrets: TtlTable<AccountSecret>,
    /// Issued verification code, keyed by username.
    pub pending_codes: TtlTable<u64>,
    /// Remaining verification attempts, keyed by username. Signed, because
    /// a decrement that races the cell's expiry recreates the cell below
    /// zero, as the underlying store's decrement does.
    pub pending_attempts: TtlTable<i64>,
    /// Live sessions: token to account snapshot.
    pub sessions: TtlTable<Account>,
    /// Session index: account identifier to the tokens issued to it.
    pub session_index: TtlTable<Vec<String>>,
}

impl VolatileStore {
    /// Each table is well formed, and every candidate account waiting in
    /// the pending cells obeys the data model's owner rule, as the durable
    /// record it would become must.
    pub open spec fn wf(&self) -> bool {
        &&& self.pending_accounts.wf()
        &&& self.pending_secrets.wf()
        &&& self.pending_codes.wf()
        &&& self.pending_attempts.wf()
        &&& self.sessions.wf()
        &&& self.session_index.wf()
        &&& forall|k: Seq<char>|
            #![trigger self.pending_accounts@[k]]
            self.pending_accounts@.contains_key(k) ==> owner_iff_bot(self.pending_accounts@[k].0)
    }

    pub fn new() -> (r: Self)
        ensures
            r.wf(),
            r.pending_accounts@ == Map::<Seq<char>, (Account, Option<u64>)>::empty(),
            r.pending_secrets@ == Map::<Seq<char>, (AccountSecret, Option<u64>)>::empty(),
            r.pending_codes@ == Map::<Seq<char>, (u64, Option<u64>)>::empty(),
            r.pending_attempts@ == Map::<Seq<char>, (i64, Option<u64>)>::empty(),
            r.sessions@ == Map::<Seq<char>, (Account, Option<u64>)>::empty(),
            r.session_index@ == Map::<Seq<char>, (Vec<String>, Option<u64>)>::empty(),
    {
        VolatileStore {
            pending_accounts: TtlTable::new(),
            pending_secrets: TtlTable::new(),
            pending_codes: TtlTable::new(),
            pending_attempts: TtlTable::new(),
            sessions: TtlTable::new(),
            session_index: TtlTable::new(),
        }
    }

    /// The verification code currently pending for this username, if its
    /// cell is live.
    pub fn pending_code(&self, username: &String, now: u64) -> (r: Option<u64>)
        requires
            self.wf(),
        ensures
            r == self.pending_codes.live_value(username@, now),
    {
        match self.pending_codes.get(username, now) {
            Some(c) => Some(*c),
            None => None,
        }
    }

    /// The remaining verification attempts for this username, if the cell
    /// is live.
    pub fn remaining_attempts(&self, username: &String, now: u64) -> (r: Option<i64>)
        requires
            self.wf(),
        ensures
            r == self.pending_attempts.live_value(username@, now),
    {
        match self.pending_attempts.get(username, now) {
            Some(a) => Some(*a),
            None => None,
        }
    }

    /// Whether a pending registration for this username is live.
    pub fn has_pending(&self, username: &String, now: u64) -> (r: bool)
        requires
            self.wf(),
        ensures
            r == (self.pending_accounts.live_value(username@, now) is Some),
    {
        self.pending_accounts.get(username, now).is_some()
    }

    /// Drop all four cells of a pending registration, live or not.
    pub fn drop_pending(&mut self, username: &String)
        requires
            old(self).wf(),
        ensures
            final(self).wf(),
            final(self).pending_accounts@ == old(self).pending_accounts@.remove(username@),
            final(self).pending_secrets@ == old(self).pending_secrets@.remove(username@),
            final(self).pending_codes@ == old(self).pending_codes@.remove(username@),
            final(self).pending_attempts@ == old(self).pending_attempts@.remove(username@),
            final(self).sessions == old(self).sessions,
            final(self).session_index == old(self).session_index,
    {
        self.pending_accounts.remove(username);
        self.pending_secrets.remove(username);
        self.pending_codes.remove(username);
        self.pending_attempts.remove(username);
    }
}

} // verus!
