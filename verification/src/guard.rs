//! The access guard: per-request authorization.
//!
//! Each guarded call resolves its session token to an account snapshot
//! and holds the snapshot against a role predicate. On a pass, the
//! resolved account becomes the request's principal; on absence or
//! predicate failure the request is unauthenticated — except under the
//! unauthenticated-only role, which admits trivially and never binds a
//! principal.

use vstd::prelude::*;

use crate::account::Account;
use crate::errors::AuthError;
use crate::session;
use crate::volatile::VolatileStore;

verus! {

/// The role a guarded call demands of its principal.
#[derive(Debug, Clone, Copy, PartialEq, Eq, Structural)]
pub enum Role {
    /// Only bot accounts.
    Bot,
    /// Only callers without a usable session; never binds a principal.
    UnAuthenticated,
    /// Any authenticated account.
    Authenticated,
    /// Only human accounts.
    Human,
    /// Only administrators.
    Admin,
}

/// Whether an account satisfies a role predicate. The unauthenticated-only
/// role is satisfied by no account.
pub open spec fn role_permits(role: Role, account: Account) -> bool {
    match role {
        Role::Admin => account.admin,
        Role::Bot => account.bot,
        Role::Human => !account.bot,
        Role::Authenticated => true,
        Role::UnAuthenticated => false,
    }
}

/// What a guarded call decides, given the live snapshot its token
/// resolves to: a bound principal, a trivial admission, or a refusal.
pub open spec fn guard_outcome(resolved: Option<Account>, role: Role) -> Result<
    Option<Account>,
    AuthError,
> {
    match resolved {
        Some(a) => if role_permits(role, a) {
            Ok(Some(a))
        } else if role is UnAuthenticated {
            Ok(None)
        } else {
            Err(AuthError::Unauthenticated)
        },
        None => if role is UnAuthenticated {
            Ok(None)
        } else {
            Err(AuthError::Unauthenticated)
        },
    }
}

impl Role {
    /// Guard one request: resolve the session cookie's token, if any, and
    /// hold the snapshot against this role. `Ok(Some(_))` binds the
    /// request's principal; `Ok(None)` admits without one.
    pub fn check(&self, vs: &VolatileStore, token: Option<&String>, now: u64) -> (r: Result<
        Option<Account>,
        AuthError,
    >)
        requires
            vs.wf(),
        ensures
            r == guard_outcome(
                match token {
                    Some(t) => vs.sessions.live_value(t@, now),
                    None => None,
                },
                *self,
            ),
    {
        let resolved = match token {
            Some(t) => session::resolve_session(vs, t, now),
            None => None,
        };
        match resolved {
            Some(account) => {
                let permitted = match self {
                    Role::Admin => account.admin,
                    Role::Bot => account.bot,
                    Role::Human => !account.bot,
                    Role::Authenticated => true,
                    Role::UnAuthenticated => false,
                };
                if permitted {
                    Ok(Some(account))
                } else {
                    match self {
                        Role::UnAuthenticated => Ok(None),
                        _ => Err(AuthError::Unauthenticated),
                    }
                }
            },
            None => {
                match self {
                    Role::UnAuthenticated => Ok(None),
                    _ => Err(AuthError::Unauthenticated),
                }
            },
        }
    }
}

} // verus!
