//! Status writes, as pure functions from the previous status to the new
//! one.
//!
//! Every reconcile action that touches the store rewrites a status
//! subresource: a phase, a human-readable message, a fresh `lastUpdated`
//! stamp, with all other fields carried over. The functions here compute
//! the value written; the surrounding process diffs it against the live
//! object and patches the status subresource. Because the computed value
//! depends only on the previous status and the action, applying the same
//! action twice yields the same status up to the stamp — the idempotence
//! the store relies on — and that is proved below.

use vstd::prelude::*;
use vstd::string::StringExecFns;

use crate::crd::{
    AssignedProvider, MaskConsumerStatus, MaskProviderStatus, MaskReservationStatus, MaskStatus,
};
use crate::phases::{MaskConsumerPhase, MaskPhase, MaskProviderPhase, MaskReservationPhase};
use crate::timing::rfc3339_millis_of;
use crate::PROBE_INTERVAL_MS;

verus! {

/// The view of an optional message.
pub open spec fn spec_opt_view(m: Option<String>) -> Option<Seq<char>> {
    match m {
        Some(s) => Some(s@),
        None => None,
    }
}

// --- MaskConsumer ---

/// The assignment carried by a previous consumer status.
pub open spec fn spec_prev_provider(prev: Option<MaskConsumerStatus>) -> Option<AssignedProvider> {
    match prev {
        Some(st) => st.provider,
        None => None,
    }
}

/// The pod name carried by a previous consumer status.
pub open spec fn spec_prev_pod(prev: Option<MaskConsumerStatus>) -> Option<String> {
    match prev {
        Some(st) => st.pod,
        None => None,
    }
}

/// What a consumer phase write produces: the phase and message, a fresh
/// stamp, and everything else carried over.
pub open spec fn spec_consumer_phase_write(
    prev: Option<MaskConsumerStatus>,
    r: MaskConsumerStatus,
    phase: MaskConsumerPhase,
    msg: Seq<char>,
    now: Seq<char>,
) -> bool {
    &&& r.phase == Some(phase)
    &&& r.message matches Some(m) && m@ == msg
    &&& r.last_updated matches Some(t) && t@ == now
    &&& r.provider == spec_prev_provider(prev)
    &&& r.pod == spec_prev_pod(prev)
}

/// Computes the status written by a consumer phase action.
pub fn consumer_phase_status(
    prev: Option<MaskConsumerStatus>,
    phase: MaskConsumerPhase,
    message: String,
    now: String,
) -> (r: MaskConsumerStatus)
    ensures
        spec_consumer_phase_write(prev, r, phase, message@, now@),
{
    let (provider, pod) = match prev {
        Some(st) => (st.provider, st.pod),
        None => (None, None),
    };
    MaskConsumerStatus {
        phase: Some(phase),
        message: Some(message),
        last_updated: Some(now),
        provider,
        pod,
    }
}

/// What the assignment write produces: the record and its message, a
/// fresh stamp, with phase and pod carried over.
pub open spec fn spec_consumer_assign_write(
    prev: Option<MaskConsumerStatus>,
    r: MaskConsumerStatus,
    record: AssignedProvider,
    msg: Seq<char>,
    now: Seq<char>,
) -> bool {
    &&& r.provider == Some(record)
    &&& r.message matches Some(m) && m@ == msg
    &&& r.last_updated matches Some(t) && t@ == now
    &&& r.phase == (match prev {
        Some(st) => st.phase,
        None => None,
    })
    &&& r.pod == spec_prev_pod(prev)
}

/// Computes the status written when a slot has been reserved: the
/// assignment record is stored; the phase is left alone, becoming
/// Active only after the secret projection is observed.
pub fn consumer_assigned_status(
    prev: Option<MaskConsumerStatus>,
    record: AssignedProvider,
    message: String,
    now: String,
) -> (r: MaskConsumerStatus)
    ensures
        spec_consumer_assign_write(prev, r, record, message@, now@),
{
    let (phase, pod) = match prev {
        Some(st) => (st.phase, st.pod),
        None => (None, None),
    };
    MaskConsumerStatus {
        phase,
        message: Some(message),
        last_updated: Some(now),
        provider: Some(record),
        pod,
    }
}

/// What the unassignment write produces when a provider is deleted:
/// the assignment is nulled out, the phase returns to Pending so the
/// next pass reassigns, and the pod name is carried over.
pub open spec fn spec_consumer_unassign_write(
    prev: Option<MaskConsumerStatus>,
    r: MaskConsumerStatus,
    now: Seq<char>,
) -> bool {
    &&& r.provider is None
    &&& r.phase == Some(MaskConsumerPhase::Pending)
    &&& r.message matches Some(m) && m@ == "Provider was unassigned upon its deletion."@
    &&& r.last_updated matches Some(t) && t@ == now
    &&& r.pod == spec_prev_pod(prev)
}

/// Computes the status written when a consumer's provider is deleted
/// out from under it.
pub fn consumer_unassigned_status(prev: Option<MaskConsumerStatus>, now: String) -> (r:
    MaskConsumerStatus)
    ensures
        spec_consumer_unassign_write(prev, r, now@),
{
    let pod = match prev {
        Some(st) => st.pod,
        None => None,
    };
    MaskConsumerStatus {
        phase: Some(MaskConsumerPhase::Pending),
        message: Some(String::from_str("Provider was unassigned upon its deletion.")),
        last_updated: Some(now),
        provider: None,
        pod,
    }
}

/// Consumer statuses that agree on everything but the stamp.
pub open spec fn spec_consumer_same_mod_stamp(a: MaskConsumerStatus, b: MaskConsumerStatus) -> bool {
    &&& a.phase == b.phase
    &&& spec_opt_view(a.message) == spec_opt_view(b.message)
    &&& a.provider == b.provider
    &&& a.pod == b.pod
}

/// Applying the same consumer phase write twice changes nothing but the
/// stamp: the second write is a no-op in the store modulo `lastUpdated`.
pub proof fn lemma_consumer_phase_write_idempotent(
    prev: Option<MaskConsumerStatus>,
    a: MaskConsumerStatus,
    b: MaskConsumerStatus,
    phase: MaskConsumerPhase,
    msg: Seq<char>,
    n1: Seq<char>,
    n2: Seq<char>,
)
    requires
        spec_consumer_phase_write(prev, a, phase, msg, n1),
        spec_consumer_phase_write(Some(a), b, phase, msg, n2),
    ensures
        spec_consumer_same_mod_stamp(a, b),
{
}

/// Applying the same assignment write twice changes nothing but the
/// stamp.
pub proof fn lemma_consumer_assign_write_idempotent(
    prev: Option<MaskConsumerStatus>,
    a: MaskConsumerStatus,
    b: MaskConsumerStatus,
    record: AssignedProvider,
    msg: Seq<char>,
    n1: Seq<char>,
    n2: Seq<char>,
)
    requires
        spec_consumer_assign_write(prev, a, record, msg, n1),
        spec_consumer_assign_write(Some(a), b, record, msg, n2),
    ensures
        spec_consumer_same_mod_stamp(a, b),
{
}

// --- Mask ---

/// What a mask phase write produces.
pub open spec fn spec_mask_phase_write(
    r: MaskStatus,
    phase: MaskPhase,
    msg: Seq<char>,
    now: Seq<char>,
) -> bool {
    &&& r.phase == Some(phase)
    &&& r.message matches Some(m) && m@ == msg
    &&& r.last_updated matches Some(t) && t@ == now
}

/// Computes the status written by a mask phase action.
pub fn mask_phase_status(phase: MaskPhase, message: String, now: String) -> (r: MaskStatus)
    ensures
        spec_mask_phase_write(r, phase, message@, now@),
{
    MaskStatus { phase: Some(phase), message: Some(message), last_updated: Some(now) }
}

/// Mask statuses that agree on everything but the stamp.
pub open spec fn spec_mask_same_mod_stamp(a: MaskStatus, b: MaskStatus) -> bool {
    &&& a.phase == b.phase
    &&& spec_opt_view(a.message) == spec_opt_view(b.message)
}

/// Applying the same mask phase write twice changes nothing but the stamp.
pub proof fn lemma_mask_phase_write_idempotent(
    a: MaskStatus,
    b: MaskStatus,
    phase: MaskPhase,
    msg: Seq<char>,
    n1: Seq<char>,
    n2: Seq<char>,
)
    requires
        spec_mask_phase_write(a, phase, msg, n1),
        spec_mask_phase_write(b, phase, msg, n2),
    ensures
        spec_mask_same_mod_stamp(a, b),
{
}

// --- MaskProvider ---

/// The `lastVerified` stamp carried by a previous provider status.
pub open spec fn spec_prev_last_verified(prev: Option<MaskProviderStatus>) -> Option<String> {
    match prev {
        Some(st) => st.last_verified,
        None => None,
    }
}

/// The published slot count carried by a previous provider status.
pub open spec fn spec_prev_active_slots(prev: Option<MaskProviderStatus>) -> Option<usize> {
    match prev {
        Some(st) => st.active_slots,
        None => None,
    }
}

/// What a provider phase write produces: phase, message and stamp;
/// `activeSlots` is published when the action carries a count and
/// carried over otherwise; `lastVerified` is always carried over.
pub open spec fn spec_provider_phase_write(
    prev: Option<MaskProviderStatus>,
    r: MaskProviderStatus,
    phase: MaskProviderPhase,
    msg: Seq<char>,
    slots: Option<usize>,
    now: Seq<char>,
) -> bool {
    &&& r.phase == Some(phase)
    &&& r.message matches Some(m) && m@ == msg
    &&& r.last_updated matches Some(t) && t@ == now
    &&& r.last_verified == spec_prev_last_verified(prev)
    &&& r.active_slots == (match slots {
        Some(n) => Some(n),
        None => spec_prev_active_slots(prev),
    })
}

/// Computes the status written by a provider phase action; `slots`
/// carries the published count for the Ready and Active writes.
pub fn provider_phase_status(
    prev: Option<MaskProviderStatus>,
    phase: MaskProviderPhase,
    message: String,
    slots: Option<usize>,
    now: String,
) -> (r: MaskProviderStatus)
    ensures
        spec_provider_phase_write(prev, r, phase, message@, slots, now@),
{
    let (last_verified, prev_slots) = match prev {
        Some(st) => (st.last_verified, st.active_slots),
        None => (None, None),
    };
    let active_slots = match slots {
        Some(n) => Some(n),
        None => prev_slots,
    };
    MaskProviderStatus {
        phase: Some(phase),
        message: Some(message),
        last_updated: Some(now),
        last_verified,
        active_slots,
    }
}

/// What the Verified write produces: phase Verified, a fresh
/// `lastVerified` stamp alongside the usual fields.
pub open spec fn spec_provider_verified_write(
    prev: Option<MaskProviderStatus>,
    r: MaskProviderStatus,
    msg: Seq<char>,
    now: Seq<char>,
) -> bool {
    &&& r.phase == Some(MaskProviderPhase::Verified)
    &&& r.message matches Some(m) && m@ == msg
    &&& r.last_updated matches Some(t) && t@ == now
    &&& r.last_verified matches Some(v) && v@ == now
    &&& r.active_slots == spec_prev_active_slots(prev)
}

/// Computes the status written when verification succeeds.
pub fn provider_verified_status(
    prev: Option<MaskProviderStatus>,
    message: String,
    now: String,
) -> (r: MaskProviderStatus)
    ensures
        spec_provider_verified_write(prev, r, message@, now@),
{
    let prev_slots = match prev {
        Some(st) => st.active_slots,
        None => None,
    };
    let stamp = now.clone();
    MaskProviderStatus {
        phase: Some(MaskProviderPhase::Verified),
        message: Some(message),
        last_updated: Some(now),
        last_verified: Some(stamp),
        active_slots: prev_slots,
    }
}

/// Provider statuses that agree on everything but the stamps.
pub open spec fn spec_provider_same_mod_stamp(a: MaskProviderStatus, b: MaskProviderStatus) -> bool {
    &&& a.phase == b.phase
    &&& spec_opt_view(a.message) == spec_opt_view(b.message)
    &&& a.active_slots == b.active_slots
}

/// Applying the same provider phase write twice changes nothing but the
/// stamp; `lastVerified` is carried over unchanged as well.
pub proof fn lemma_provider_phase_write_idempotent(
    prev: Option<MaskProviderStatus>,
    a: MaskProviderStatus,
    b: MaskProviderStatus,
    phase: MaskProviderPhase,
    msg: Seq<char>,
    slots: Option<usize>,
    n1: Seq<char>,
    n2: Seq<char>,
)
    requires
        spec_provider_phase_write(prev, a, phase, msg, slots, n1),
        spec_provider_phase_write(Some(a), b, phase, msg, slots, n2),
    ensures
        spec_provider_same_mod_stamp(a, b),
        b.last_verified == a.last_verified,
{
}

/// Applying the Verified write twice changes nothing but the two stamps.
pub proof fn lemma_provider_verified_write_idempotent(
    prev: Option<MaskProviderStatus>,
    a: MaskProviderStatus,
    b: MaskProviderStatus,
    msg: Seq<char>,
    n1: Seq<char>,
    n2: Seq<char>,
)
    requires
        spec_provider_verified_write(prev, a, msg, n1),
        spec_provider_verified_write(Some(a), b, msg, n2),
    ensures
        spec_provider_same_mod_stamp(a, b),
{
}

// --- MaskReservation ---

/// What a reservation phase write produces.
pub open spec fn spec_reservation_phase_write(
    r: MaskReservationStatus,
    phase: MaskReservationPhase,
    msg: Seq<char>,
    now: Seq<char>,
) -> bool {
    &&& r.phase == Some(phase)
    &&& r.message matches Some(m) && m@ == msg
    &&& r.last_updated matches Some(t) && t@ == now
}

/// Computes the status written by a reservation phase action.
pub fn reservation_phase_status(
    phase: MaskReservationPhase,
    message: String,
    now: String,
) -> (r: MaskReservationStatus)
    ensures
        spec_reservation_phase_write(r, phase, message@, now@),
{
    MaskReservationStatus { phase: Some(phase), message: Some(message), last_updated: Some(now) }
}

/// Reservation statuses that agree on everything but the stamp.
pub open spec fn spec_reservation_same_mod_stamp(
    a: MaskReservationStatus,
    b: MaskReservationStatus,
) -> bool {
    &&& a.phase == b.phase
    &&& spec_opt_view(a.message) == spec_opt_view(b.message)
}

/// Applying the same reservation phase write twice changes nothing but
/// the stamp.
pub proof fn lemma_reservation_phase_write_idempotent(
    a: MaskReservationStatus,
    b: MaskReservationStatus,
    phase: MaskReservationPhase,
    msg: Seq<char>,
    n1: Seq<char>,
    n2: Seq<char>,
)
    requires
        spec_reservation_phase_write(a, phase, msg, n1),
        spec_reservation_phase_write(b, phase, msg, n2),
    ensures
        spec_reservation_same_mod_stamp(a, b),
{
}

/// A consumer whose status was just written Active with a fresh stamp
/// is quiescent: the next pass decides NoOp, so a second application of
/// the action would not touch the store at all.
pub proof fn lemma_active_write_quiesces(
    c: crate::crd::MaskConsumer,
    prev: Option<MaskConsumerStatus>,
    msg: Seq<char>,
    now: Seq<char>,
    now_ms: i64,
)
    requires
        c.status matches Some(st) && spec_consumer_phase_write(
            prev,
            st,
            MaskConsumerPhase::Active,
            msg,
            now,
        ),
        rfc3339_millis_of(now) matches Some(t) && t <= now_ms && now_ms - t <= PROBE_INTERVAL_MS,
    ensures
        crate::consumers::spec_consumer_quiescent(c, now_ms),
{
}

} // verus!
