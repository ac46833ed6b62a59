//! `acquire-new`: mints a token for the role bound to the session.
use vstd::prelude::*;

use super::Permission;
use crate::managers::{Authorize, Error, TokenManager};
use crate::service::{AuthError, Shortcut};
use crate::Role;

verus! {

/// Runs `acquire-new`; holds the minted token until the response is made.
pub struct Worker {
    token: Option<String>,
}

/// A worker for one `acquire-new` request.
pub fn action() -> (w: Worker)
    ensures
        w.pending() is None,
{
    Worker { token: None }
}

impl Worker {
    /// The token minted and not yet handed out.
    pub closed spec fn pending(&self) -> Option<String> {
        self.token
    }

    /// Checks the permission and that a role is bound, then asks `manager` for
    /// a token for that role. Without `CanAcquire`, or with no role bound,
    /// `manager` is not asked and nothing changes.
    pub fn prepare<R: Role, A: Authorize<R>, M: TokenManager<R>>(
        &mut self,
        session: &A,
        held: &[Permission],
        manager: &mut M,
    ) -> (r: Result<Shortcut, AuthError>)
        ensures
            !held@.contains(Permission::CanAcquire) ==> {
                &&& r == Err::<Shortcut, AuthError>(AuthError::PermissionDenied)
                &&& *final(manager) == *old(manager)
                &&& *final(self) == *old(self)
            },
            held@.contains(Permission::CanAcquire) && session.bound_role() is None ==> {
                &&& r == Err::<Shortcut, AuthError>(AuthError::NoRoleBound)
                &&& *final(manager) == *old(manager)
                &&& *final(self) == *old(self)
            },
            held@.contains(Permission::CanAcquire) && session.bound_role() is Some
                ==> exists|o: Result<String, Error>|
                {
                    &&& old(manager).acquires(session.bound_role()->Some_0, *final(manager), o)
                    &&& acquired(*old(self), *final(self), o, r)
                },
    {
        if !Permission::CanAcquire.held_in(held) {
            return Err(AuthError::PermissionDenied);
        }
        match session.role() {
            None => Err(AuthError::NoRoleBound),
            Some(role) => {
                let outcome = manager.acquire_token(role);
                self.settle(outcome)
            },
        }
    }

    /// Keeps the token that the manager minted, for the response; reports a
    /// failure of the manager.
    pub fn settle(&mut self, outcome: Result<String, Error>) -> (r: Result<Shortcut, AuthError>)
        ensures
            acquired(*old(self), *final(self), outcome, r),
    {
        match outcome {
            Ok(token) => {
                self.token = Some(token);
                Ok(Shortcut::Tuned)
            },
            Err(e) => Err(AuthError::from_checker(e)),
        }
    }

    /// Whether a minted token waits to be handed out.
    pub fn has_pending(&self) -> (r: bool)
        ensures
            r == self.pending() is Some,
    {
        self.token.is_some()
    }

    /// Hands out the token that `prepare` minted.
    pub fn realize(&mut self) -> (r: String)
        requires
            old(self).pending() is Some,
        ensures
            Some(r) == old(self).pending(),
            final(self).pending() is None,
    {
        self.token.take().unwrap()
    }
}

/// What minting leaves behind: a token is kept for the response and the
/// action is tuned; a failure of the manager is reported and nothing is kept.
pub open spec fn acquired(
    before: Worker,
    after: Worker,
    outcome: Result<String, Error>,
    r: Result<Shortcut, AuthError>,
) -> bool {
    match outcome {
        Ok(token) => r == Ok::<Shortcut, AuthError>(Shortcut::Tuned) && after.pending() == Some(token),
        Err(e) => r == Err::<Shortcut, AuthError>(AuthError::of_checker(e)) && after == before,
    }
}

} // verus!
