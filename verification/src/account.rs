//! Account records and their secrets.
//!
//! An `Account` is the durable identity of a principal, human or bot; an
//! `AccountSecret` is its one-to-one companion holding the contact address
//! and the password hash. Both are plain values: the durable store keeps
//! them, sessions snapshot them.

use vstd::prelude::*;

use crate::ids;

verus! {

/// A stored media reference, addressed by its location path.
#[derive(Debug)]
pub struct File {
    pub loc: String,
}

impl Clone for File {
    fn clone(&self) -> (res: Self)
        ensures
            res == *self,
    {
        File { loc: self.loc.clone() }
    }
}

/// A durable account record.
///
/// `owner` is present exactly on bot accounts and names the human account
/// that created the bot. Timestamps are Unix seconds.
#[derive(Debug)]
pub struct Account {
    pub id: String,
    pub username: String,
    pub display_name: String,
    pub bio: Option<String>,
    pub pfp: Option<File>,
    pub banner: Option<File>,
    pub created_at: u64,
    pub modified_at: u64,
    pub admin: bool,
    pub bot: bool,
    pub owner: Option<String>,
}

impl Clone for Account {
    fn clone(&self) -> (res: Self)
        ensures
            res == *self,
    {
        Account {
            id: self.id.clone(),
            username: self.username.clone(),
            display_name: self.display_name.clone(),
            bio: clone_opt_string(&self.bio),
            pfp: clone_opt_file(&self.pfp),
            banner: clone_opt_file(&self.banner),
            created_at: self.created_at,
            modified_at: self.modified_at,
            admin: self.admin,
            bot: self.bot,
            owner: clone_opt_string(&self.owner),
        }
    }
}

impl Account {
    /// A fresh, never-seen account: no profile yet, not an admin, with a
    /// newly generated opaque identifier and the display name equal to the
    /// username.
    pub fn new(username: String, bot: bool, owner: Option<String>, now: u64) -> (r: Account)
        ensures
            r.username == username,
            r.display_name == username,
            r.bio is None,
            r.pfp is None,
            r.banner is None,
            r.created_at == now,
            r.modified_at == now,
            !r.admin,
            r.bot == bot,
            r.owner == owner,
    {
        let id = ids::new_id();
        let display_name = username.clone();
        Account {
            id,
            username,
            display_name,
            bio: None,
            pfp: None,
            banner: None,
            created_at: now,
            modified_at: now,
            admin: false,
            bot,
            owner,
        }
    }
}

/// The data model's owner rule: an owner reference is present exactly on
/// bot accounts.
pub open spec fn owner_iff_bot(a: Account) -> bool {
    a.owner is Some <==> a.bot
}

/// The secret companion of an account: contact address (an email for a
/// human, a generated surrogate for a bot), password hash, banned flag.
#[derive(Debug)]
pub struct AccountSecret {
    pub contact: String,
    pub password_hash: String,
    pub banned: bool,
}

impl Clone for AccountSecret {
    fn clone(&self) -> (res: Self)
        ensures
            res == *self,
    {
        AccountSecret {
            contact: self.contact.clone(),
            password_hash: self.password_hash.clone(),
            banned: self.banned,
        }
    }
}

/// How a single account is selected.
pub enum UserSelectCriteria {
    Id(String),
    Username(String),
}

/// How a page of accounts is selected.
pub enum MultipleUserSelectCriteria {
    Ids(Vec<String>),
    Usernames(Vec<String>),
    Search(String),
}

pub(crate) fn clone_opt_string(v: &Option<String>) -> (res: Option<String>)
    ensures
        res == *v,
{
    match v {
        Some(s) => Some(s.clone()),
        None => None,
    }
}

pub(crate) fn clone_opt_file(v: &Option<File>) -> (res: Option<File>)
    ensures
        res == *v,
{
    match v {
        Some(f) => Some(f.clone()),
        None => None,
    }
}

} // verus!
