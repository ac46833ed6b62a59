//! What the actions of a service answer, and the failures they report.
use vstd::prelude::*;

use crate::managers::{Authorize, Error};
use crate::Role;

verus! {

/// The immediate outcome of an action.
#[derive(Debug, PartialEq, Eq)]
pub enum Shortcut {
    /// The action needs a follow-up step that produces its response.
    Tuned,
    /// The attempt was refused, with the reason.
    Reject(String),
    /// The action is complete.
    Done,
}

/// Why an action did not run to its end.
#[derive(Debug, PartialEq, Eq, Structural)]
pub enum AuthError {
    /// The session lacks the permission that the action requires.
    PermissionDenied,
    /// The action needs a role bound to the session, and none is.
    NoRoleBound,
    /// The checker cannot do what the action asks (mint a token).
    Unsupported,
    /// The checker knows no credential of the session's role.
    UnknownRole,
    /// No action of the service has the name asked for.
    ActionNotFound,
}

impl AuthError {
    /// The failure that an action reports for a failure of its checker.
    pub open spec fn of_checker(e: Error) -> AuthError {
        match e {
            Error::Unsupported => AuthError::Unsupported,
            Error::UnknownRole => AuthError::UnknownRole,
        }
    }

    /// See [`AuthError::of_checker`].
    pub fn from_checker(e: Error) -> (r: AuthError)
        ensures
            r == AuthError::of_checker(e),
    {
        match e {
            Error::Unsupported => AuthError::Unsupported,
            Error::UnknownRole => AuthError::UnknownRole,
        }
    }
}

/// What binding the result of a credential check leaves behind: a role found
/// is bound and the action is done; no role refuses with `refusal`; a failure
/// of the checker is reported. The session changes only when a role is found.
pub open spec fn granted<R: Role, A: Authorize<R>>(
    before: A,
    after: A,
    outcome: Result<Option<R>, Error>,
    refusal: Seq<char>,
    r: Result<Shortcut, AuthError>,
) -> bool {
    match outcome {
        Ok(Some(role)) => r == Ok::<Shortcut, AuthError>(Shortcut::Done) && after.bound_role() == Some(role),
        Ok(None) => r matches Ok(Shortcut::Reject(msg)) && msg@ == refusal && after == before,
        Err(e) => r == Err::<Shortcut, AuthError>(AuthError::of_checker(e)) && after == before,
    }
}

/// Binds the role that a credential check found, or refuses with `refusal`.
pub fn grant<R: Role, A: Authorize<R>>(
    session: &mut A,
    outcome: Result<Option<R>, Error>,
    refusal: &str,
) -> (r: Result<Shortcut, AuthError>)
    ensures
        granted(*old(session), *final(session), outcome, refusal@, r),
{
    match outcome {
        Ok(Some(role)) => {
            session.set_role(Some(role));
            Ok(Shortcut::Done)
        },
        Ok(None) => Ok(Shortcut::Reject(refusal.to_owned())),
        Err(e) => Err(AuthError::from_checker(e)),
    }
}

} // verus!
