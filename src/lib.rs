//! Token and credential authentication for sessions of a request-handling host.
//!
//! The crate decides, for a presented credential, which role (if any) a session
//! is granted, and gates each authentication action behind a permission.
use vstd::prelude::*;

pub mod cred;
pub mod managers;
pub mod service;
pub mod shared;
pub mod text;
pub mod token;

verus! {

/// Marker for the application's role type: the value a session is granted.
pub trait Role {
}

} // verus!
