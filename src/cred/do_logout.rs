//! `do-logout`: clears the role bound to the session.
use vstd::prelude::*;

use super::Permission;
use crate::managers::Authorize;
use crate::service::{AuthError, Shortcut};
use crate::Role;

verus! {

/// Runs `do-logout`.
pub struct Worker {
}

/// A worker for one `do-logout` request.
pub fn action() -> Worker {
    Worker {  }
}

impl Worker {
    /// Checks the permission and clears the bound role; clearing an empty
    /// slot is done as well. Without `CanLogout` nothing changes.
    pub fn prepare<R: Role, A: Authorize<R>>(
        &mut self,
        session: &mut A,
        held: &[Permission],
    ) -> (r: Result<Shortcut, AuthError>)
        ensures
            !held@.contains(Permission::CanLogout) ==> {
                &&& r == Err::<Shortcut, AuthError>(AuthError::PermissionDenied)
                &&& *final(session) == *old(session)
            },
            held@.contains(Permission::CanLogout) ==> {
                &&& r == Ok::<Shortcut, AuthError>(Shortcut::Done)
                &&& final(session).bound_role() is None
            },
    {
        if !Permission::CanLogout.held_in(held) {
            return Err(AuthError::PermissionDenied);
        }
        session.set_role(None);
        Ok(Shortcut::Done)
    }
}

} // verus!
