//! `change-password`: attaches a new password to the role bound to the session.
use vstd::prelude::*;

use super::Permission;
use crate::managers::{Authorize, CredentialManager, Error};
use crate::service::{AuthError, Shortcut};
use crate::Role;

verus! {

/// Runs `change-password`.
pub struct Worker {
}

/// A worker for one `change-password` request.
pub fn action() -> Worker {
    Worker {  }
}

/// What attaching the password answers: done, or the manager's failure.
pub open spec fn changed<R>(outcome: Result<Option<R>, Error>, r: Result<Shortcut, AuthError>) -> bool {
    match outcome {
        Ok(_) => r == Ok::<Shortcut, AuthError>(Shortcut::Done),
        Err(e) => r == Err::<Shortcut, AuthError>(AuthError::of_checker(e)),
    }
}

impl Worker {
    /// Checks the permission and that a role is bound, then asks `manager` to
    /// attach `password` to that role; the answer is the one that `settle`
    /// gives for what `manager` answered. Without `CanChange`, or with no role
    /// bound, `manager` is not asked and nothing changes. The session's role
    /// is never changed.
    pub fn prepare<R: Role, A: Authorize<R>, M: CredentialManager<R>>(
        &mut self,
        session: &A,
        held: &[Permission],
        manager: &mut M,
        password: &str,
    ) -> (r: Result<Shortcut, AuthError>)
        ensures
            !held@.contains(Permission::CanChange) ==> {
                &&& r == Err::<Shortcut, AuthError>(AuthError::PermissionDenied)
                &&& *final(manager) == *old(manager)
            },
            held@.contains(Permission::CanChange) && session.bound_role() is None ==> {
                &&& r == Err::<Shortcut, AuthError>(AuthError::NoRoleBound)
                &&& *final(manager) == *old(manager)
            },
            held@.contains(Permission::CanChange) && session.bound_role() is Some
                ==> exists|o: Result<Option<R>, Error>|
                {
                    &&& old(manager).attaches(session.bound_role()->Some_0, password@, *final(manager), o)
                    &&& changed(o, r)
                },
    {
        if !Permission::CanChange.held_in(held) {
            return Err(AuthError::PermissionDenied);
        }
        match session.role() {
            None => Err(AuthError::NoRoleBound),
            Some(role) => {
                let outcome = manager.attach_password(role, password);
                self.settle(outcome)
            },
        }
    }

    /// Answers for what attaching the password gave.
    pub fn settle<R>(&mut self, outcome: Result<Option<R>, Error>) -> (r: Result<Shortcut, AuthError>)
        ensures
            changed(outcome, r),
    {
        match outcome {
            Ok(_) => Ok(Shortcut::Done),
            Err(e) => Err(AuthError::from_checker(e)),
        }
    }
}

} // verus!
