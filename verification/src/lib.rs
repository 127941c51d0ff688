//! Core logic of a VPN-credential operator for Kubernetes.
//!
//! The operator hands out capacity-limited VPN credentials: each provider
//! admits a bounded number of concurrent sessions (slots), and consumers
//! acquire slots through compare-and-swap on deterministically named
//! reservation objects. This crate holds the decision logic of the four
//! reconcilers and the slot-allocation protocol; the surrounding process
//! (watch streams, API calls) performs the actions these decisions request.

use vstd::prelude::*;

pub mod allocate;
pub mod consumers;
pub mod crd;
pub mod error;
pub mod masks;
pub mod merge;
pub mod names;
pub mod phases;
pub mod providers;
pub mod reservations;
pub mod slot;
pub mod status;
pub mod strings;
pub mod timing;

verus! {

/// Interval, in milliseconds, between periodic requeues of a fully
/// reconciled object; also the staleness threshold beyond which an
/// up-to-date phase is rewritten to refresh its timestamp.
pub const PROBE_INTERVAL_MS: u64 = 12000;

/// Fixed delay, in milliseconds, before retrying a reconciliation
/// that failed with a transient store error.
pub const ERROR_REQUEUE_MS: u64 = 5000;

} // verus!
