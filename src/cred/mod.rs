//! Signing in with a login and password, signing out, and changing the password.
//!
//! Actions: `do-login` binds the role of a login whose password matches;
//! `do-logout` clears the bound role; `change-password` attaches a new
//! password to the bound role.
use vstd::prelude::*;

use core::marker::PhantomData;

use crate::service::AuthError;
use crate::text::same_text;
use crate::Role;

pub mod change_password;
pub mod do_login;
pub mod do_logout;

verus! {

/// Permissions that the credential actions require.
#[derive(Clone, Copy, Debug, PartialEq, Eq, Structural)]
pub enum Permission {
    /// May try to sign in.
    CanAuth,
    /// May sign out.
    CanLogout,
    /// May change the password of the bound role.
    CanChange,
}

impl Permission {
    /// Whether `held` grants this permission.
    pub fn held_in(self, held: &[Permission]) -> (r: bool)
        ensures
            r == held@.contains(self),
    {
        let mut i: usize = 0;
        while i < held.len()
            invariant
                i <= held@.len(),
                forall|j: int| 0 <= j < i ==> held@[j] != self,
            decreases held@.len() - i,
        {
            if held[i] == self {
                return true;
            }
            i = i + 1;
        }
        false
    }
}

/// The action that a name selects.
pub enum CredAction {
    /// `do-login`.
    DoLogin(do_login::Worker),
    /// `do-logout`.
    DoLogout(do_logout::Worker),
    /// `change-password`.
    ChangePassword(change_password::Worker),
}

/// The service of the credential actions, for sessions whose role type is `R`.
pub struct AuthService<R> {
    _role: PhantomData<R>,
}

impl<R: Role> AuthService<R> {
    /// The service; it holds no state of its own.
    pub fn new() -> Self {
        AuthService { _role: PhantomData }
    }

    /// The action named `action`: `do-login`, `do-logout` or `change-password`.
    pub fn route(&self, action: &str) -> (r: Result<CredAction, AuthError>)
        ensures
            action@ == "do-login"@ ==> r matches Ok(CredAction::DoLogin(_)),
            action@ == "do-logout"@ ==> r matches Ok(CredAction::DoLogout(_)),
            action@ == "change-password"@ ==> r matches Ok(CredAction::ChangePassword(_)),
            action@ != "do-login"@ && action@ != "do-logout"@ && action@ != "change-password"@
                ==> r == Err::<CredAction, AuthError>(AuthError::ActionNotFound),
    {
        proof {
            reveal_strlit("do-login");
            reveal_strlit("do-logout");
            reveal_strlit("change-password");
            assert("do-login"@.len() != "do-logout"@.len());
            assert("do-login"@[0] != "change-password"@[0]);
            assert("do-logout"@[0] != "change-password"@[0]);
        }
        if same_text(action, "do-login") {
            Ok(CredAction::DoLogin(do_login::action()))
        } else if same_text(action, "do-logout") {
            Ok(CredAction::DoLogout(do_logout::action()))
        } else if same_text(action, "change-password") {
            Ok(CredAction::ChangePassword(change_password::action()))
        } else {
            Err(AuthError::ActionNotFound)
        }
    }
}

} // verus!
