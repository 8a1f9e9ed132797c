//! The durable store: account records and their secrets.
//!
//! This models the persistent datastore the subsystem talks to. Each record
//! pairs an `Account` with its one-to-one `AccountSecret`; usernames and
//! account identifiers are unique, contacts need not be. The store exposes
//! exactly the collaborator contract the core consumes: create a record
//! as one logical unit, look records up, and replace a password hash.

use vstd::pervasive::VecAdditionalExecFns;
use vstd::prelude::*;

use crate::account::{owner_iff_bot, Account, AccountSecret, UserSelectCriteria};
use crate::errors::AuthError;

verus! {

/// One durable record: an account and its secret, written together.
pub struct Registered {
    pub account: Account,
    pub secret: AccountSecret,
}

/// How a password update transforms one record: the account, contact and
/// banned flag stay, and the hash becomes `new_hash` exactly when `hit`
/// holds.
pub open spec fn same_but_hash(pre: Registered, post: Registered, new_hash: Seq<char>, hit: bool) -> bool {
    &&& post.account == pre.account
    &&& post.secret.contact == pre.secret.contact
    &&& post.secret.banned == pre.secret.banned
    &&& post.secret.password_hash@ == if hit {
        new_hash
    } else {
        pre.secret.password_hash@
    }
}


/// A profile update: every field kept except the modification timestamp,
/// which becomes `now`.
pub open spec fn stamped(pre: Account, post: Account, now: u64) -> bool {
    &&& post.id == pre.id
    &&& post.username == pre.username
    &&& post.display_name == pre.display_name
    &&& post.bio == pre.bio
    &&& post.pfp == pre.pfp
    &&& post.banner == pre.banner
    &&& post.created_at == pre.created_at
    &&& post.modified_at == now
    &&& post.admin == pre.admin
    &&& post.bot == pre.bot
    &&& post.owner == pre.owner
}

/// The accounts owned by `owner_id`, in record order.
pub open spec fn bots_of(s: Seq<Registered>, owner_id: Seq<char>) -> Seq<Account>
    decreases s.len(),
{
    if s.len() == 0 {
        Seq::empty()
    } else {
        let rest = bots_of(s.drop_last(), owner_id);
        if s.last().account.owner matches Some(o) && o@ == owner_id {
            rest.push(s.last().account)
        } else {
            rest
        }
    }
}

/// The durable store, viewed as the sequence of its records.
pub struct DurableStore {
    records: Vec<Registered>,
}

impl View for DurableStore {
    type V = Seq<Registered>;

    closed spec fn view(&self) -> Seq<Registered> {
        self.records@
    }
}

impl DurableStore {
    /// Usernames and account identifiers are unique across records, and
    /// every record obeys the owner rule: an owner reference is present
    /// exactly on bot accounts.
    pub open spec fn wf(&self) -> bool {
        &&& forall|i: int, j: int|
            0 <= i < j < self@.len() ==> self@[i].account.username@ != self@[j].account.username@
                && self@[i].account.id@ != self@[j].account.id@
        &&& forall|i: int| #![trigger self@[i]] 0 <= i < self@.len() ==> owner_iff_bot(self@[i].account)
    }

    /// Some record carries this username.
    pub open spec fn has_username(&self, u: Seq<char>) -> bool {
        exists|i: int| 0 <= i < self@.len() && self@[i].account.username@ == u
    }

    /// Some record carries this account identifier.
    pub open spec fn has_account_id(&self, id: Seq<char>) -> bool {
        exists|i: int| 0 <= i < self@.len() && self@[i].account.id@ == id
    }

    /// Some record's secret carries this contact.
    pub open spec fn has_contact(&self, c: Seq<char>) -> bool {
        exists|i: int| 0 <= i < self@.len() && self@[i].secret.contact@ == c
    }

    pub fn new() -> (r: Self)
        ensures
            r.wf(),
            r@ == Seq::<Registered>::empty(),
    {
        DurableStore { records: Vec::new() }
    }

    /// Create an account and its secret as one logical unit. Refused when
    /// the username or the identifier is already taken; the caller treats
    /// the refusal as a datastore failure.
    pub fn create_account_and_secret(&mut self, account: Account, secret: AccountSecret) -> (r:
        Result<(), ()>)
        requires
            old(self).wf(),
            owner_iff_bot(account),
        ensures
            final(self).wf(),
            r is Ok <==> !old(self).has_username(account.username@) && !old(
                self,
            ).has_account_id(account.id@),
            r is Ok ==> final(self)@ == old(self)@.push(Registered { account, secret }),
            r is Err ==> final(self)@ == old(self)@,
    {
        let n = self.records.len();
        let mut i: usize = 0;
        while i < n
            invariant
                old(self).wf(),
                n == self.records@.len(),
                i <= n,
                self == old(self),
                forall|j: int|
                    0 <= j < i ==> self.records@[j].account.username@ != account.username@
                        && self.records@[j].account.id@ != account.id@,
            decreases n - i,
        {
            if self.records[i].account.username == account.username {
                return Err(());
            }
            if self.records[i].account.id == account.id {
                return Err(());
            }
            i = i + 1;
        }
        self.records.push(Registered { account, secret });
        Ok(())
    }

    /// Look an account up by its globally unique username.
    pub fn find_account_by_username(&self, username: &String) -> (r: Option<Account>)
        requires
            self.wf(),
        ensures
            match r {
                Some(a) => a.username@ == username@ && exists|i: int|
                    0 <= i < self@.len() && self@[i].account == a,
                None => !self.has_username(username@),
            },
    {
        let n = self.records.len();
        let mut i: usize = 0;
        while i < n
            invariant
                self.wf(),
                n == self.records@.len(),
                i <= n,
                forall|j: int| 0 <= j < i ==> self.records@[j].account.username@ != username@,
            decreases n - i,
        {
            if self.records[i].account.username == *username {
                let a = self.records[i].account.clone();
                proof {
                    assert(self@[i as int].account == a);
                }
                return Some(a);
            }
            i = i + 1;
        }
        None
    }

    /// Look an account up by its identifier.
    pub fn find_account_by_id(&self, id: &String) -> (r: Option<Account>)
        requires
            self.wf(),
        ensures
            match r {
                Some(a) => a.id@ == id@ && exists|i: int|
                    0 <= i < self@.len() && self@[i].account == a,
                None => !self.has_account_id(id@),
            },
    {
        let n = self.records.len();
        let mut i: usize = 0;
        while i < n
            invariant
                self.wf(),
                n == self.records@.len(),
                i <= n,
                forall|j: int| 0 <= j < i ==> self.records@[j].account.id@ != id@,
            decreases n - i,
        {
            if self.records[i].account.id == *id {
                let a = self.records[i].account.clone();
                proof {
                    assert(self@[i as int].account == a);
                }
                return Some(a);
            }
            i = i + 1;
        }
        None
    }

    /// Look an account up by either criterion.
    pub fn fetch_user(&self, criteria: &UserSelectCriteria) -> (r: Option<Account>)
        requires
            self.wf(),
        ensures
            match criteria {
                UserSelectCriteria::Id(id) => match r {
                    Some(a) => a.id@ == id@ && exists|i: int|
                        0 <= i < self@.len() && self@[i].account == a,
                    None => !self.has_account_id(id@),
                },
                UserSelectCriteria::Username(u) => match r {
                    Some(a) => a.username@ == u@ && exists|i: int|
                        0 <= i < self@.len() && self@[i].account == a,
                    None => !self.has_username(u@),
                },
            },
    {
        match criteria {
            UserSelectCriteria::Id(id) => self.find_account_by_id(id),
            UserSelectCriteria::Username(u) => self.find_account_by_username(u),
        }
    }

    /// The first record whose secret carries this contact, as the pair of
    /// its account and secret. Contacts are not unique, so the earliest
    /// record wins, as in the underlying datastore.
    pub fn find_secret_by_contact(&self, contact: &String) -> (r: Option<(Account, AccountSecret)>)
        requires
            self.wf(),
        ensures
            match r {
                Some(p) => p.1.contact@ == contact@ && exists|i: int|
                    0 <= i < self@.len() && self@[i].account == p.0 && self@[i].secret == p.1 && (
                    forall|j: int| 0 <= j < i ==> self@[j].secret.contact@ != contact@),
                None => !self.has_contact(contact@),
            },
    {
        let n = self.records.len();
        let mut i: usize = 0;
        while i < n
            invariant
                self.wf(),
                n == self.records@.len(),
                i <= n,
                forall|j: int| 0 <= j < i ==> self.records@[j].secret.contact@ != contact@,
            decreases n - i,
        {
            if self.records[i].secret.contact == *contact {
                let a = self.records[i].account.clone();
                let s = self.records[i].secret.clone();
                proof {
                    assert(self@[i as int].account == a && self@[i as int].secret == s);
                }
                return Some((a, s));
            }
            i = i + 1;
        }
        None
    }


    /// Every account owned by `owner_id`, in record order.
    pub fn find_bots_by_owner(&self, owner_id: &String) -> (r: Vec<Account>)
        requires
            self.wf(),
        ensures
            r@ == bots_of(self@, owner_id@),
    {
        let n = self.records.len();
        let mut out: Vec<Account> = Vec::new();
        let mut i: usize = 0;
        proof {
            assert(self@.subrange(0, 0) =~= Seq::<Registered>::empty());
        }
        while i < n
            invariant
                n == self.records@.len(),
                i <= n,
                out@ == bots_of(self@.subrange(0, i as int), owner_id@),
            decreases n - i,
        {
            let owned = match &self.records[i].account.owner {
                Some(o) => *o == *owner_id,
                None => false,
            };
            proof {
                assert(self@.subrange(0, i + 1).drop_last() =~= self@.subrange(0, i as int));
                assert(self@.subrange(0, i + 1).last() == self@[i as int]);
            }
            if owned {
                out.push(self.records[i].account.clone());
            }
            i = i + 1;
        }
        proof {
            assert(self@.subrange(0, n as int) =~= self@);
        }
        out
    }

    /// The bots of an owner, visible to administrators and to the owner
    /// alone.
    pub fn bots_owned_by(&self, viewer: &Account, owner_id: &String) -> (r: Result<
        Vec<Account>,
        AuthError,
    >)
        requires
            self.wf(),
        ensures
            match r {
                Ok(v) => (viewer.admin || viewer.id@ == owner_id@) && v@ == bots_of(
                    self@,
                    owner_id@,
                ),
                Err(e) => e == AuthError::Unauthorized && !viewer.admin && viewer.id@ != owner_id@,
            },
    {
        if viewer.admin || viewer.id == *owner_id {
            Ok(self.find_bots_by_owner(owner_id))
        } else {
            Err(AuthError::Unauthorized)
        }
    }

    /// Whether some record binds this contact to exactly this password
    /// hash.
    pub fn has_contact_with_hash(&self, contact: &String, hash: &String) -> (r: bool)
        requires
            self.wf(),
        ensures
            r == exists|i: int|
                0 <= i < self@.len() && self@[i].secret.contact@ == contact@
                    && self@[i].secret.password_hash@ == hash@,
    {
        let n = self.records.len();
        let mut i: usize = 0;
        while i < n
            invariant
                n == self.records@.len(),
                i <= n,
                forall|j: int|
                    0 <= j < i ==> !(self.records@[j].secret.contact@ == contact@
                        && self.records@[j].secret.password_hash@ == hash@),
            decreases n - i,
        {
            if self.records[i].secret.contact == *contact && self.records[i].secret.password_hash
                == *hash {
                proof {
                    assert(self@[i as int].secret.contact@ == contact@);
                }
                return true;
            }
            i = i + 1;
        }
        false
    }

    /// Replace the password hash of every secret bound to this contact.
    /// Returns whether any record was touched.
    pub fn update_secret_password(&mut self, contact: &String, new_hash: &String) -> (r: bool)
        requires
            old(self).wf(),
        ensures
            final(self).wf(),
            final(self)@.len() == old(self)@.len(),
            forall|i: int|
                #![trigger final(self)@[i]]
                0 <= i < old(self)@.len() ==> same_but_hash(
                    old(self)@[i],
                    final(self)@[i],
                    new_hash@,
                    old(self)@[i].secret.contact@ == contact@,
                ),
            r == old(self).has_contact(contact@),
            !r ==> final(self)@ == old(self)@,
    {
        let n = self.records.len();
        let mut i: usize = 0;
        let mut touched = false;
        while i < n
            invariant
                old(self).wf(),
                n == self.records@.len(),
                i <= n,
                forall|k: int|
                    #![trigger self.records@[k]]
                    0 <= k < i ==> same_but_hash(
                        old(self)@[k],
                        self.records@[k],
                        new_hash@,
                        old(self)@[k].secret.contact@ == contact@,
                    ),
                forall|k: int|
                    #![trigger self.records@[k]]
                    i <= k < n ==> self.records@[k] == old(self)@[k],
                !touched ==> self.records@ == old(self)@,
                touched == exists|k: int|
                    0 <= k < i && old(self)@[k].secret.contact@ == contact@,
            decreases n - i,
        {
            if self.records[i].secret.contact == *contact {
                let updated = Registered {
                    account: self.records[i].account.clone(),
                    secret: AccountSecret {
                        contact: self.records[i].secret.contact.clone(),
                        password_hash: new_hash.clone(),
                        banned: self.records[i].secret.banned,
                    },
                };
                self.records.set(i, updated);
                touched = true;
            }
            i = i + 1;
        }
        touched
    }

    /// Replace an account record by identifier, keeping its secret. The
    /// new username must not belong to any other account; the modification
    /// timestamp is set to `now`. An unknown identifier is a datastore
    /// failure.
    pub fn update_user(&mut self, updated: Account, now: u64) -> (r: Result<Account, AuthError>)
        requires
            old(self).wf(),
            owner_iff_bot(updated),
        ensures
            final(self).wf(),
            (exists|j: int|
                0 <= j < old(self)@.len() && old(self)@[j].account.username@ == updated.username@
                    && old(self)@[j].account.id@ != updated.id@) ==> r == Err::<
                Account,
                AuthError,
            >(AuthError::UsernameAlreadyExists) && final(self)@ == old(self)@,
            !(exists|j: int|
                0 <= j < old(self)@.len() && old(self)@[j].account.username@ == updated.username@
                    && old(self)@[j].account.id@ != updated.id@) && !old(self).has_account_id(
                updated.id@,
            ) ==> r == Err::<Account, AuthError>(AuthError::Internal) && final(self)@ == old(
                self,
            )@,
            !(exists|j: int|
                0 <= j < old(self)@.len() && old(self)@[j].account.username@ == updated.username@
                    && old(self)@[j].account.id@ != updated.id@) && old(self).has_account_id(
                updated.id@,
            ) ==> (r matches Ok(a) && stamped(updated, a, now) && final(self)@.len() == old(
                self,
            )@.len() && (forall|k: int|
                #![trigger final(self)@[k]]
                0 <= k < old(self)@.len() ==> if old(self)@[k].account.id@ == updated.id@ {
                    final(self)@[k].account == a && final(self)@[k].secret == old(self)@[k].secret
                } else {
                    final(self)@[k] == old(self)@[k]
                })),
    {
        let n = self.records.len();
        let mut i: usize = 0;
        while i < n
            invariant
                old(self).wf(),
                n == self.records@.len(),
                i <= n,
                self == old(self),
                forall|j: int|
                    0 <= j < i ==> !(self.records@[j].account.username@ == updated.username@
                        && self.records@[j].account.id@ != updated.id@),
            decreases n - i,
        {
            if self.records[i].account.username == updated.username && !(self.records[i].account.id
                == updated.id) {
                return Err(AuthError::UsernameAlreadyExists);
            }
            i = i + 1;
        }
        let mut fresh = updated.clone();
        fresh.modified_at = now;
        let mut i: usize = 0;
        while i < n
            invariant
                old(self).wf(),
                n == self.records@.len(),
                i <= n,
                self == old(self),
                owner_iff_bot(updated),
                stamped(updated, fresh, now),
                forall|j: int|
                    0 <= j < n ==> !(self.records@[j].account.username@ == updated.username@
                        && self.records@[j].account.id@ != updated.id@),
                forall|j: int| 0 <= j < i ==> self.records@[j].account.id@ != updated.id@,
            decreases n - i,
        {
            if self.records[i].account.id == fresh.id {
                let replaced = Registered {
                    account: fresh.clone(),
                    secret: self.records[i].secret.clone(),
                };
                self.records.set(i, replaced);
                proof {
                    assert(forall|k: int|
                        #![trigger self.records@[k]]
                        0 <= k < n && k != i ==> self.records@[k] == old(self)@[k]);
                    assert(forall|k: int|
                        #![trigger old(self)@[k]]
                        0 <= k < n && k != i ==> old(self)@[k].account.id@ != updated.id@);
                    assert(old(self).has_account_id(updated.id@)) by {
                        assert(old(self)@[i as int].account.id@ == updated.id@);
                    };
                    assert(forall|j: int|
                        #![trigger old(self)@[j]]
                        0 <= j < old(self)@.len() ==> !(old(self)@[j].account.username@
                            == updated.username@ && old(self)@[j].account.id@ != updated.id@));
                }
                return Ok(fresh);
            }
            i = i + 1;
        }
        Err(AuthError::Internal)
    }

    /// Replace the password hash of the secret whose account has this
    /// identifier. Returns the contact of the touched record, if any.
    pub fn update_secret_password_by_account(&mut self, account_id: &String, new_hash: &String) -> (
        r: Option<String>)
        requires
            old(self).wf(),
        ensures
            final(self).wf(),
            final(self)@.len() == old(self)@.len(),
            forall|i: int|
                #![trigger final(self)@[i]]
                0 <= i < old(self)@.len() ==> same_but_hash(
                    old(self)@[i],
                    final(self)@[i],
                    new_hash@,
                    old(self)@[i].account.id@ == account_id@,
                ),
            match r {
                Some(c) => exists|i: int|
                    0 <= i < old(self)@.len() && old(self)@[i].account.id@ == account_id@
                        && old(self)@[i].secret.contact@ == c@,
                None => !old(self).has_account_id(account_id@) && final(self)@ == old(self)@,
            },
    {
        let n = self.records.len();
        let mut i: usize = 0;
        while i < n
            invariant
                old(self).wf(),
                n == self.records@.len(),
                i <= n,
                self == old(self),
                forall|j: int| 0 <= j < i ==> self.records@[j].account.id@ != account_id@,
            decreases n - i,
        {
            if self.records[i].account.id == *account_id {
                let contact = self.records[i].secret.contact.clone();
                let updated = Registered {
                    account: self.records[i].account.clone(),
                    secret: AccountSecret {
                        contact: self.records[i].secret.contact.clone(),
                        password_hash: new_hash.clone(),
                        banned: self.records[i].secret.banned,
                    },
                };
                self.records.set(i, updated);
                proof {
                    assert(forall|k: int|
                        #![trigger self.records@[k]]
                        0 <= k < n && k != i ==> self.records@[k] == old(self)@[k]);
                    assert(forall|k: int|
                        #![trigger old(self)@[k]]
                        0 <= k < n && k != i ==> old(self)@[k].account.id@ != account_id@);
                    assert(exists|k: int|
                        0 <= k < n && old(self)@[k].account.id@ == account_id@
                            && old(self)@[k].secret.contact@ == contact@) by {
                        assert(old(self)@[i as int].secret.contact@ == contact@);
                    };
                }
                return Some(contact);
            }
            i = i + 1;
        }
        None
    }
}

} // verus!
