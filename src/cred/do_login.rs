//! `do-login`: binds the role of a login whose password matches.
use vstd::prelude::*;

use super::Permission;
use crate::managers::{Authorize, CredentialManager, Error};
use crate::service::{grant, granted, AuthError, Shortcut};
use crate::Role;

verus! {

/// The reason given when a login and password grant no role.
pub const WRONG_CREDENTIALS: &'static str = "wrong credentials";

/// Runs `do-login`.
pub struct Worker {
}

/// A worker for one `do-login` request.
pub fn action() -> Worker {
    Worker {  }
}

impl Worker {
    /// Checks the permission, resolves `login` and `password` with `manager`,
    /// and binds the role found: the answer is the one that [`grant`] gives
    /// for what `manager` answered. Without `CanAuth` nothing is resolved and
    /// nothing changes.
    pub fn prepare<R: Role, A: Authorize<R>, M: CredentialManager<R>>(
        &mut self,
        session: &mut A,
        held: &[Permission],
        manager: &mut M,
        login: &str,
        password: &str,
    ) -> (r: Result<Shortcut, AuthError>)
        ensures
            !held@.contains(Permission::CanAuth) ==> {
                &&& r == Err::<Shortcut, AuthError>(AuthError::PermissionDenied)
                &&& *final(session) == *old(session)
                &&& *final(manager) == *old(manager)
            },
            held@.contains(Permission::CanAuth) ==> exists|o: Result<Option<R>, Error>|
                {
                    &&& old(manager).picks(login@, password@, *final(manager), o)
                    &&& granted(*old(session), *final(session), o, WRONG_CREDENTIALS@, r)
                },
    {
        if !Permission::CanAuth.held_in(held) {
            return Err(AuthError::PermissionDenied);
        }
        let outcome = manager.pick_role(login, password);
        self.settle(session, outcome)
    }

    /// Binds the role that the check gave, or refuses with
    /// [`WRONG_CREDENTIALS`].
    pub fn settle<R: Role, A: Authorize<R>>(
        &mut self,
        session: &mut A,
        outcome: Result<Option<R>, Error>,
    ) -> (r: Result<Shortcut, AuthError>)
        ensures
            granted(*old(session), *final(session), outcome, WRONG_CREDENTIALS@, r),
    {
        grant(session, outcome, WRONG_CREDENTIALS)
    }
}

} // verus!
