//! Signing in with a token, and issuing new tokens to a signed-in session.
//!
//! Actions: `do-login` binds the role that a token grants; `acquire-new` mints
//! a token for the role that is bound.
use vstd::prelude::*;

use core::marker::PhantomData;

use crate::service::AuthError;
use crate::text::same_text;
use crate::Role;

pub mod acquire_new;
pub mod do_login;

verus! {

/// Permissions that the token actions require.
#[derive(Clone, Copy, Debug, PartialEq, Eq, Structural)]
pub enum Permission {
    /// May try to sign in.
    CanAuth,
    /// May ask for a new token.
    CanAcquire,
}

impl Permission {
    /// Whether `held` grants this permission.
    pub fn held_in(self, held: &[Permission]) -> (r: bool)
        ensures
            r == held@.contains(self),
    {
        let mut i: usize = 0;
        while i < held.len()
            invariant
                i <= held@.len(),
                forall|j: int| 0 <= j < i ==> held@[j] != self,
            decreases held@.len() - i,
        {
            if held[i] == self {
                return true;
            }
            i = i + 1;
        }
        false
    }
}

/// The action that a name selects.
pub enum TokenAction {
    /// `do-login`.
    DoLogin(do_login::Worker),
    /// `acquire-new`.
    AcquireNew(acquire_new::Worker),
}

/// The service of the token actions, for sessions whose role type is `R`.
pub struct TokenService<R> {
    _role: PhantomData<R>,
}

impl<R: Role> TokenService<R> {
    /// The service; it holds no state of its own.
    pub fn new() -> Self {
        TokenService { _role: PhantomData }
    }

    /// The action named `action`: `do-login` or `acquire-new`.
    pub fn route(&self, action: &str) -> (r: Result<TokenAction, AuthError>)
        ensures
            action@ == "do-login"@ ==> r matches Ok(TokenAction::DoLogin(_)),
            action@ == "acquire-new"@ ==> (r matches Ok(TokenAction::AcquireNew(w)) && w.pending() is None),
            action@ != "do-login"@ && action@ != "acquire-new"@
                ==> r == Err::<TokenAction, AuthError>(AuthError::ActionNotFound),
    {
        proof {
            reveal_strlit("do-login");
            reveal_strlit("acquire-new");
            assert("do-login"@[0] != "acquire-new"@[0]);
        }
        if same_text(action, "do-login") {
            Ok(TokenAction::DoLogin(do_login::action()))
        } else if same_text(action, "acquire-new") {
            Ok(TokenAction::AcquireNew(acquire_new::action()))
        } else {
            Err(AuthError::ActionNotFound)
        }
    }
}

} // verus!
