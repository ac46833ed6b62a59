//! What a checker offers: resolving a credential to a role, and issuing tokens.
use vstd::prelude::*;

pub mod credentials;
pub mod keyval;
mod table;

pub use crate::Role;

verus! {

/// Failures that a checker reports.
#[derive(Debug, PartialEq, Eq, Structural)]
pub enum Error {
    /// The checker has no way to do what was asked (a table that cannot mint tokens).
    Unsupported,
    /// No credential of the store belongs to the role.
    UnknownRole,
}

/// The slot of a session that holds the role it was granted.
pub trait Authorize<R: Role> {
    /// The role bound to the session, if any.
    spec fn bound_role(&self) -> Option<R>;

    /// Reads the slot.
    fn role(&self) -> (r: &Option<R>)
        ensures
            *r == self.bound_role(),
    ;

    /// Binds `role` (or clears the slot with `None`) and gives back what was bound before.
    fn set_role(&mut self, role: Option<R>) -> (prev: Option<R>)
        ensures
            final(self).bound_role() == role,
            prev == old(self).bound_role(),
    ;
}

/// A bare slot is the simplest session.
impl<R: Role> Authorize<R> for Option<R> {
    open spec fn bound_role(&self) -> Option<R> {
        *self
    }

    fn role(&self) -> (r: &Option<R>) {
        self
    }

    fn set_role(&mut self, role: Option<R>) -> (prev: Option<R>) {
        let prev = self.take();
        *self = role;
        prev
    }
}

/// A checker that resolves a token to a role and can be asked to mint one.
///
/// The spec functions say what a call may answer and leave behind; a checker
/// of this crate states them exactly, and the defaults promise nothing.
pub trait TokenManager<R: Role>: Sized {
    /// Whether resolving `token` may answer `r` and leave the checker as `after`.
    open spec fn picks(&self, token: Seq<char>, after: Self, r: Result<Option<R>, Error>) -> bool {
        true
    }

    /// Whether minting a token for `role` may answer `r` and leave the checker as `after`.
    open spec fn acquires(&self, role: R, after: Self, r: Result<String, Error>) -> bool {
        true
    }

    /// The role that `token` grants, if any.
    fn pick_role(&mut self, token: &str) -> (r: Result<Option<R>, Error>)
        ensures
            old(self).picks(token@, *final(self), r),
    ;

    /// A new token bound to `role`.
    fn acquire_token(&mut self, role: &R) -> (r: Result<String, Error>)
        ensures
            old(self).acquires(*role, *final(self), r),
    ;
}

/// A checker that resolves a login and password to a role.
///
/// The spec functions say what a call may answer and leave behind; a checker
/// of this crate states them exactly, and the defaults promise nothing.
pub trait CredentialManager<R: Role>: Sized {
    /// Whether checking `login` with `password` may answer `r` and leave the
    /// checker as `after`.
    open spec fn picks(&self, login: Seq<char>, password: Seq<char>, after: Self, r: Result<Option<R>, Error>) -> bool {
        true
    }

    /// Whether attaching `password` to `role` may answer `r` and leave the
    /// checker as `after`.
    open spec fn attaches(&self, role: R, password: Seq<char>, after: Self, r: Result<Option<R>, Error>) -> bool {
        true
    }

    /// The role of `login`, if `password` is its password.
    fn pick_role(&mut self, login: &str, password: &str) -> (r: Result<Option<R>, Error>)
        ensures
            old(self).picks(login@, password@, *final(self), r),
    ;

    /// Makes `password` the password of `role`; gives back the role it was attached to.
    fn attach_password(&mut self, role: &R, password: &str) -> (r: Result<Option<R>, Error>)
        ensures
            old(self).attaches(*role, password@, *final(self), r),
    ;
}

/// Digests of passwords, as the embedding application computes them.
pub trait Crypt {
    /// The digest to store for `pass`.
    fn hash(pass: &str) -> String;

    /// Whether `pass` is the password that `digest` was made from.
    fn verify(pass: &str, digest: &str) -> bool;
}

} // verus!
