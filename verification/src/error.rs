//! The tagged error model of the operator.
//!
//! Store responses that drive control flow are first-class variants, so
//! the compare-and-swap protocol is expressible without exception
//! plumbing: `Conflict` is the losing branch of a slot acquisition and
//! `NotFound` means "object gone" at a read site; neither is a failure.

use vstd::prelude::*;

verus! {

/// Outcome categories of a reconciliation step.
#[derive(Clone, Debug)]
pub enum Error {
    /// The store refused a create because the name is taken: the
    /// expected losing branch of slot acquisition.
    Conflict,
    /// The object addressed by a read no longer exists.
    NotFound,
    /// Required metadata or a cross-reference is missing or malformed;
    /// parse failures on durations and timestamps land here too.
    UserInput(String),
    /// Any other store error; the reconciliation is retried after a
    /// fixed backoff.
    Transient(String),
}

impl Error {
    /// Whether this error is an expected control-flow outcome rather
    /// than a failure.
    pub fn is_expected(&self) -> (r: bool)
        ensures
            r == (*self is Conflict || *self is NotFound),
    {
        match self {
            Error::Conflict => true,
            Error::NotFound => true,
            Error::UserInput(_) => false,
            Error::Transient(_) => false,
        }
    }
}

} // verus!
