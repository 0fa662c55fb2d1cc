//! Core of a personal productivity tracker: airdrop-farming tasks, household
//! chores, project task lists and free-form ideas, kept in an in-memory record
//! store with the two invariants that matter proved: stable user-defined
//! ordering with position renumbering, and idempotent date-keyed task
//! completion.

use vstd::prelude::*;

pub mod airdrops;
pub mod completion;
pub mod house;
pub mod ideas;
pub mod models;
pub mod projects;
pub mod status;
pub mod store;

verus! {

/// The error taxonomy of the tracker: caller data failing a shape check,
/// a reference to a record that does not exist, and a failure of the
/// backing store.
#[derive(Clone, Copy, Debug, PartialEq, Eq, Structural)]
pub enum StoreError {
    /// Caller-supplied data fails a basic shape check (an empty required
    /// field, an unrecognized status word).
    Validation,
    /// A referenced id does not exist.
    NotFound,
    /// The backing store failed; no partial state change was committed.
    Persistence,
}

impl StoreError {
    /// A short description, suitable for surfacing to the caller as-is.
    pub fn message(&self) -> (r: &'static str)
        ensures
            *self == StoreError::Validation ==> r@ == "invalid input"@,
            *self == StoreError::NotFound ==> r@ == "not found"@,
            *self == StoreError::Persistence ==> r@ == "store failure"@,
    {
        match self {
            StoreError::Validation => "invalid input",
            StoreError::NotFound => "not found",
            StoreError::Persistence => "store failure",
        }
    }
}

} // verus!
