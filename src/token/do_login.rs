//! `do-login`: binds the role that a presented token grants.
use vstd::prelude::*;

use super::Permission;
use crate::managers::{Authorize, Error, TokenManager};
use crate::service::{grant, granted, AuthError, Shortcut};
use crate::Role;

verus! {

/// The reason given when a token grants no role.
pub const WRONG_TOKEN: &'static str = "Token is not valid!";

/// Runs `do-login`.
pub struct Worker {
}

/// A worker for one `do-login` request.
pub fn action() -> Worker {
    Worker {  }
}

impl Worker {
    /// Checks the permission, resolves `token` with `manager`, and binds the
    /// role it grants: the answer is the one that [`grant`] gives for what
    /// `manager` answered. Without `CanAuth` nothing is resolved and nothing
    /// changes.
    pub fn prepare<R: Role, A: Authorize<R>, M: TokenManager<R>>(
        &mut self,
        session: &mut A,
        held: &[Permission],
        manager: &mut M,
        token: &str,
    ) -> (r: Result<Shortcut, AuthError>)
        ensures
            !held@.contains(Permission::CanAuth) ==> {
                &&& r == Err::<Shortcut, AuthError>(AuthError::PermissionDenied)
                &&& *final(session) == *old(session)
                &&& *final(manager) == *old(manager)
            },
            held@.contains(Permission::CanAuth) ==> exists|o: Result<Option<R>, Error>|
                {
                    &&& old(manager).picks(token@, *final(manager), o)
                    &&& granted(*old(session), *final(session), o, WRONG_TOKEN@, r)
                },
    {
        if !Permission::CanAuth.held_in(held) {
            return Err(AuthError::PermissionDenied);
        }
        let outcome = manager.pick_role(token);
        self.settle(session, outcome)
    }

    /// Binds the role that resolving the token gave, or refuses with
    /// [`WRONG_TOKEN`].
    pub fn settle<R: Role, A: Authorize<R>>(
        &mut self,
        session: &mut A,
        outcome: Result<Option<R>, Error>,
    ) -> (r: Result<Shortcut, AuthError>)
        ensures
            granted(*old(session), *final(session), outcome, WRONG_TOKEN@, r),
    {
        grant(session, outcome, WRONG_TOKEN)
    }
}

} // verus!
