//! Decision logic of the `MaskReservation` reconciler.
//!
//! The reservation is the per-slot lock. It lives in the provider's
//! namespace, but the consumer it guards lives elsewhere, outside the
//! reach of the store's owner-reference cascade. The finalizer on the
//! reservation bridges that gap: deletion first deletes the paired
//! consumer, and only once the consumer is observed gone (or replaced
//! by another incarnation) is the finalizer released. This blocks slot
//! reuse until every pod consuming the credentials is really gone.

use vstd::prelude::*;
use vstd::string::StringExecFns;

use crate::crd::{MaskConsumer, MaskReservation};
use crate::error::Error;
use crate::names::{finalizer_name, spec_finalizer_name};
use crate::phases::MaskReservationPhase;
use crate::strings::{spec_contains_string, str_eq_str, vec_contains_str};
use crate::timing::rfc3339_millis_of;
use crate::PROBE_INTERVAL_MS;

verus! {

/// Action to be taken upon a `MaskReservation` during reconciliation.
#[derive(Clone, Copy, Debug, PartialEq, Eq, Structural)]
pub enum ReservationAction {
    /// Add the finalizer and set the phase to Pending.
    Pending,
    /// Drive deletion: delete the paired consumer first, release the
    /// finalizer only when the consumer is gone. When `delete_resource`
    /// is set, the reservation itself is deleted too, used when its
    /// consumer vanished without the reservation being deleted.
    Delete {
        /// Whether the reservation object itself is deleted as well.
        delete_resource: bool,
    },
    /// Write or refresh the Active phase.
    Active,
    /// Fully reconciled; check again after the probe interval.
    NoOp,
}

impl ReservationAction {
    /// The action's name, for counters and logs.
    pub fn to_str(&self) -> (r: &'static str)
        ensures
            match self {
                ReservationAction::Pending => r@ == "Pending"@,
                ReservationAction::Delete { .. } => r@ == "Delete"@,
                ReservationAction::Active => r@ == "Active"@,
                ReservationAction::NoOp => r@ == "NoOp"@,
            },
    {
        match self {
            ReservationAction::Pending => "Pending",
            ReservationAction::Delete { .. } => "Delete",
            ReservationAction::Active => "Active",
            ReservationAction::NoOp => "NoOp",
        }
    }
}

/// Returns true if the reservation is missing the finalizer.
pub fn needs_finalizer(instance: &MaskReservation) -> (r: bool)
    ensures
        r == !spec_contains_string(instance.metadata.finalizers@, spec_finalizer_name()),
{
    !vec_contains_str(&instance.metadata.finalizers, finalizer_name())
}

/// Whether the reservation still needs its initial Pending write.
pub open spec fn spec_needs_pending(res: MaskReservation) -> bool {
    !spec_contains_string(res.metadata.finalizers@, spec_finalizer_name()) || match res.status {
        Some(st) => st.phase is None,
        None => true,
    }
}

/// Returns true if the reservation requires the initial status write.
pub fn needs_pending(instance: &MaskReservation) -> (r: bool)
    ensures
        r == spec_needs_pending(*instance),
{
    needs_finalizer(instance) || match &instance.status {
        Some(st) => st.phase.is_none(),
        None => true,
    }
}

/// Whether the fetched consumer is the one this reservation guards:
/// it exists under the referenced name and its uid matches the spec's.
/// A consumer of the same name with a different uid is a later
/// incarnation and does not count.
pub open spec fn spec_paired_consumer_current(
    res: MaskReservation,
    consumer: Option<MaskConsumer>,
) -> bool {
    match consumer {
        Some(c) => c.metadata.uid@ == res.spec.uid@,
        None => false,
    }
}

/// The view of an optionally fetched consumer.
pub open spec fn spec_opt_consumer(c: Option<&MaskConsumer>) -> Option<MaskConsumer> {
    match c {
        Some(m) => Some(*m),
        None => None,
    }
}

/// Decides whether the consumer fetched under the reservation's
/// back-reference still backs it.
pub fn paired_consumer_current(instance: &MaskReservation, consumer: Option<&MaskConsumer>) -> (r:
    bool)
    ensures
        r == spec_paired_consumer_current(*instance, spec_opt_consumer(consumer)),
{
    match consumer {
        Some(c) => str_eq_str(c.metadata.uid.as_str(), instance.spec.uid.as_str()),
        None => false,
    }
}

/// Whether the status fields needed by the heartbeat decision are readable.
pub open spec fn spec_reservation_clock_ok(res: MaskReservation, now_ms: i64) -> bool {
    &&& res.status matches Some(st)
    &&& st.phase is Some
    &&& st.last_updated matches Some(ts)
    &&& rfc3339_millis_of(ts@) matches Some(t)
    &&& t <= now_ms
}

/// Whether the reservation needs no further work right now.
pub open spec fn spec_reservation_quiescent(res: MaskReservation, now_ms: i64) -> bool {
    &&& spec_reservation_clock_ok(res, now_ms)
    &&& res.status->0.phase == Some(MaskReservationPhase::Active)
    &&& now_ms - rfc3339_millis_of(res.status->0.last_updated->0@)->0 <= PROBE_INTERVAL_MS
}

/// Returns the phase of the reservation together with the age of its
/// status, measured against `now_ms`.
pub fn get_reservation_phase(instance: &MaskReservation, now_ms: i64) -> (r: Result<
    (MaskReservationPhase, u64),
    Error,
>)
    ensures
        match r {
            Ok((p, age)) => {
                &&& spec_reservation_clock_ok(*instance, now_ms)
                &&& instance.status->0.phase == Some(p)
                &&& age == now_ms - rfc3339_millis_of(instance.status->0.last_updated->0@)->0
            },
            Err(e) => e is UserInput && !spec_reservation_clock_ok(*instance, now_ms),
        },
{
    let st = match &instance.status {
        Some(st) => st,
        None => {
            return Err(Error::UserInput(String::from_str("no status")));
        },
    };
    let phase = match st.phase {
        Some(p) => p,
        None => {
            return Err(Error::UserInput(String::from_str("no phase")));
        },
    };
    let ts = match &st.last_updated {
        Some(ts) => ts,
        None => {
            return Err(Error::UserInput(String::from_str("no lastUpdated")));
        },
    };
    match crate::timing::age_millis(ts.as_str(), now_ms) {
        Ok(age) => Ok((phase, age)),
        Err(e) => Err(e),
    }
}

/// Decides the next action for a reservation: delete path, initial
/// Pending write, self-deletion when the paired consumer is gone, and
/// otherwise the Active heartbeat.
pub fn determine_action(
    instance: &MaskReservation,
    consumer: Option<&MaskConsumer>,
    now_ms: i64,
) -> (r: Result<ReservationAction, Error>)
    ensures
        instance.metadata.deletion_timestamp is Some ==> r == Ok::<ReservationAction, Error>(
            ReservationAction::Delete { delete_resource: false },
        ),
        instance.metadata.deletion_timestamp is None && spec_needs_pending(*instance) ==> r
            == Ok::<ReservationAction, Error>(ReservationAction::Pending),
        instance.metadata.deletion_timestamp is None && !spec_needs_pending(*instance)
            && !spec_paired_consumer_current(*instance, spec_opt_consumer(consumer)) ==> r == Ok::<
            ReservationAction,
            Error,
        >(ReservationAction::Delete { delete_resource: true }),
        instance.metadata.deletion_timestamp is None && !spec_needs_pending(*instance)
            && spec_paired_consumer_current(*instance, spec_opt_consumer(consumer))
            && spec_reservation_clock_ok(*instance, now_ms) ==> r == Ok::<
            ReservationAction,
            Error,
        >(
            if spec_reservation_quiescent(*instance, now_ms) {
                ReservationAction::NoOp
            } else {
                ReservationAction::Active
            },
        ),
        instance.metadata.deletion_timestamp is None && !spec_needs_pending(*instance)
            && spec_paired_consumer_current(*instance, spec_opt_consumer(consumer))
            && !spec_reservation_clock_ok(*instance, now_ms) ==> r is Err,
{
    if instance.metadata.deletion_timestamp.is_some() {
        return Ok(ReservationAction::Delete { delete_resource: false });
    }
    if needs_pending(instance) {
        return Ok(ReservationAction::Pending);
    }
    if !paired_consumer_current(instance, consumer) {
        return Ok(ReservationAction::Delete { delete_resource: true });
    }
    let (phase, age) = match get_reservation_phase(instance, now_ms) {
        Ok(pa) => pa,
        Err(e) => {
            return Err(e);
        },
    };
    if !matches!(phase, MaskReservationPhase::Active) || age > PROBE_INTERVAL_MS {
        Ok(ReservationAction::Active)
    } else {
        Ok(ReservationAction::NoOp)
    }
}

/// One step of the delete path, taken while the deletion timestamp is
/// set: what to do given the lookup of the paired consumer.
#[derive(Clone, Copy, Debug, PartialEq, Eq, Structural)]
pub enum TerminateStep {
    /// The paired consumer still exists with the recorded uid: delete
    /// it and requeue, keeping the finalizer in place.
    DeleteConsumerAndRequeue,
    /// The paired consumer is gone or replaced: release the finalizer
    /// and let the store garbage-collect the reservation.
    RemoveFinalizer,
}

/// What the terminate step decides for a given consumer lookup.
pub open spec fn spec_terminate_step(
    res: MaskReservation,
    consumer: Option<MaskConsumer>,
) -> TerminateStep {
    if spec_paired_consumer_current(res, consumer) {
        TerminateStep::DeleteConsumerAndRequeue
    } else {
        TerminateStep::RemoveFinalizer
    }
}

/// Decides the delete-path step: the finalizer is released exactly when
/// the paired consumer no longer exists under the recorded uid.
pub fn terminate_step(instance: &MaskReservation, consumer: Option<&MaskConsumer>) -> (r:
    TerminateStep)
    ensures
        r == spec_terminate_step(*instance, spec_opt_consumer(consumer)),
{
    if paired_consumer_current(instance, consumer) {
        TerminateStep::DeleteConsumerAndRequeue
    } else {
        TerminateStep::RemoveFinalizer
    }
}

/// Finalizer safety: as long as the paired consumer exists with the
/// uid recorded in the reservation's spec, the terminate step keeps the
/// finalizer, so the reservation is not garbage-collected and its slot
/// cannot be handed out again.
pub proof fn lemma_finalizer_safety(res: MaskReservation, c: MaskConsumer)
    requires
        c.metadata.uid@ == res.spec.uid@,
    ensures
        spec_terminate_step(res, Some(c)) == TerminateStep::DeleteConsumerAndRequeue,
{
}

/// The converse: the finalizer is released only on evidence that the
/// consumer is gone or belongs to a later incarnation.
pub proof fn lemma_finalizer_release_needs_absence(
    res: MaskReservation,
    consumer: Option<MaskConsumer>,
)
    requires
        spec_terminate_step(res, consumer) == TerminateStep::RemoveFinalizer,
    ensures
        consumer matches Some(c) ==> c.metadata.uid@ != res.spec.uid@,
        consumer is None || consumer->0.metadata.uid@ != res.spec.uid@,
{
}

} // verus!
