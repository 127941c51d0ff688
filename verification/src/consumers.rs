//! Decision logic of the `MaskConsumer` reconciler.
//!
//! A consumer is driven through its lifecycle by a priority list of
//! actions: the first matching action wins and the rest wait for the
//! next pass. The surrounding process fetches the referenced objects,
//! asks `determine_action` what to do, and performs the store writes
//! the decision calls for.

use vstd::prelude::*;
use vstd::string::StringExecFns;

use crate::crd::{AssignedProvider, MaskConsumer, MaskProvider, MaskReservation};
use crate::error::Error;
use crate::names::{finalizer_name, projected_secret_name, spec_finalizer_name, spec_projected_secret_name};
use crate::phases::MaskConsumerPhase;
use crate::strings::{spec_contains_string, str_eq_str, vec_contains_str};
use crate::timing::rfc3339_millis_of;
use crate::PROBE_INTERVAL_MS;

verus! {

/// Action to be taken upon a `MaskConsumer` during reconciliation.
#[derive(Clone, Copy, Debug, PartialEq, Eq, Structural)]
pub enum ConsumerAction {
    /// Add the finalizer and set the phase to Pending.
    Pending,
    /// Remove the finalizer; when `delete_resource` is set, also delete
    /// the consumer itself, used when its reservation vanished beneath it.
    Delete {
        /// Whether the consumer object itself is deleted as well.
        delete_resource: bool,
    },
    /// Run the allocation protocol to obtain a provider.
    Assign,
    /// Project the provider's credential secret into the consumer's namespace.
    CreateSecret,
    /// Write or refresh the Active phase.
    Active,
    /// Fully reconciled; check again after the probe interval.
    NoOp,
}

impl ConsumerAction {
    /// The action's name, for counters and logs.
    pub fn to_str(&self) -> (r: &'static str)
        ensures
            match self {
                ConsumerAction::Pending => r@ == "Pending"@,
                ConsumerAction::Delete { .. } => r@ == "Delete"@,
                ConsumerAction::Assign => r@ == "Assign"@,
                ConsumerAction::CreateSecret => r@ == "CreateSecret"@,
                ConsumerAction::Active => r@ == "Active"@,
                ConsumerAction::NoOp => r@ == "NoOp"@,
            },
    {
        match self {
            ConsumerAction::Pending => "Pending",
            ConsumerAction::Delete { .. } => "Delete",
            ConsumerAction::Assign => "Assign",
            ConsumerAction::CreateSecret => "CreateSecret",
            ConsumerAction::Active => "Active",
            ConsumerAction::NoOp => "NoOp",
        }
    }
}

/// Whether the consumer's metadata carries the operator's finalizer.
pub open spec fn spec_has_finalizer(finalizers: Seq<String>) -> bool {
    spec_contains_string(finalizers, spec_finalizer_name())
}

/// Returns true if the consumer is missing the finalizer.
pub fn needs_finalizer(instance: &MaskConsumer) -> (r: bool)
    ensures
        r == !spec_has_finalizer(instance.metadata.finalizers@),
{
    !vec_contains_str(&instance.metadata.finalizers, finalizer_name())
}

/// Whether the consumer still needs its initial Pending write: the
/// finalizer is absent or the status has no phase yet.
pub open spec fn spec_needs_pending(c: MaskConsumer) -> bool {
    !spec_has_finalizer(c.metadata.finalizers@) || match c.status {
        Some(st) => st.phase is None,
        None => true,
    }
}

/// Returns true if the consumer requires the initial status write.
pub fn needs_pending(instance: &MaskConsumer) -> (r: bool)
    ensures
        r == spec_needs_pending(*instance),
{
    needs_finalizer(instance) || match &instance.status {
        Some(st) => st.phase.is_none(),
        None => true,
    }
}

/// The assignment recorded on the consumer's status, if any.
pub open spec fn spec_assigned_provider(c: MaskConsumer) -> Option<AssignedProvider> {
    match c.status {
        Some(st) => st.provider,
        None => None,
    }
}

/// Returns the consumer's assigned provider from its status object.
pub fn get_assigned_provider(instance: &MaskConsumer) -> (r: Option<&AssignedProvider>)
    ensures
        match r {
            Some(a) => spec_assigned_provider(*instance) == Some(*a),
            None => spec_assigned_provider(*instance) is None,
        },
{
    match &instance.status {
        Some(st) => match &st.provider {
            Some(a) => Some(a),
            None => None,
        },
        None => None,
    }
}

/// The view of an optionally fetched reservation.
pub open spec fn spec_opt_res(res: Option<&MaskReservation>) -> Option<MaskReservation> {
    match res {
        Some(m) => Some(*m),
        None => None,
    }
}

/// Whether the fetched reservation is the one the assignment refers to:
/// it exists and its uid equals the recorded reservation uid.
pub open spec fn spec_reservation_current(
    a: AssignedProvider,
    res: Option<MaskReservation>,
) -> bool {
    match res {
        Some(r) => r.metadata.uid@ == a.reservation@,
        None => false,
    }
}

/// Decides whether the reservation backing the assignment still exists
/// under the recorded uid. A reservation of the same name with another
/// uid means the slot was re-provisioned: the assignment is invalid.
pub fn reservation_current(a: &AssignedProvider, res: Option<&MaskReservation>) -> (r: bool)
    ensures
        r == spec_reservation_current(
            *a,
            match res {
                Some(m) => Some(*m),
                None => None,
            },
        ),
{
    match res {
        Some(m) => str_eq_str(m.metadata.uid.as_str(), a.reservation.as_str()),
        None => false,
    }
}

/// Whether the consumer holds an assignment and the fetched reservation
/// still backs it under the recorded uid.
pub open spec fn spec_assignment_backed(c: MaskConsumer, res: Option<MaskReservation>) -> bool {
    match spec_assigned_provider(c) {
        Some(a) => spec_reservation_current(a, res),
        None => false,
    }
}

/// Whether the status carries a phase and a parsable, non-future
/// `lastUpdated` stamp, the inputs the heartbeat decision needs.
pub open spec fn spec_status_clock_ok(
    phase_some: bool,
    last_updated: Option<String>,
    now_ms: i64,
) -> bool {
    &&& phase_some
    &&& last_updated matches Some(ts)
    &&& rfc3339_millis_of(ts@) matches Some(t)
    &&& t <= now_ms
}

/// The age in milliseconds of a status stamp known to be parsable.
pub open spec fn spec_stamp_age(last_updated: Option<String>, now_ms: i64) -> int {
    now_ms - rfc3339_millis_of(last_updated->0@)->0
}

/// Returns the phase of the consumer together with the age of its
/// status, measured against `now_ms`.
pub fn get_consumer_phase(instance: &MaskConsumer, now_ms: i64) -> (r: Result<
    (MaskConsumerPhase, u64),
    Error,
>)
    ensures
        match r {
            Ok((p, age)) => {
                &&& instance.status matches Some(st)
                &&& st.phase == Some(p)
                &&& spec_status_clock_ok(st.phase is Some, st.last_updated, now_ms)
                &&& age == spec_stamp_age(st.last_updated, now_ms)
            },
            Err(e) => {
                &&& e is UserInput
                &&& !(instance.status matches Some(st) && spec_status_clock_ok(
                    st.phase is Some,
                    st.last_updated,
                    now_ms,
                ))
            },
        },
{
    let st = match &instance.status {
        Some(st) => st,
        None => {
            return Err(Error::UserInput(String::from_str("no status")));
        },
    };
    let phase = match st.phase {
        Some(p) => p,
        None => {
            return Err(Error::UserInput(String::from_str("no phase")));
        },
    };
    let ts = match &st.last_updated {
        Some(ts) => ts,
        None => {
            return Err(Error::UserInput(String::from_str("no lastUpdated")));
        },
    };
    match crate::timing::age_millis(ts.as_str(), now_ms) {
        Ok(age) => Ok((phase, age)),
        Err(e) => Err(e),
    }
}

/// Whether the consumer needs no further work right now: phase Active
/// and a status younger than the probe interval.
pub open spec fn spec_consumer_quiescent(c: MaskConsumer, now_ms: i64) -> bool {
    &&& c.status matches Some(st)
    &&& spec_status_clock_ok(st.phase is Some, st.last_updated, now_ms)
    &&& st.phase == Some(MaskConsumerPhase::Active)
    &&& spec_stamp_age(st.last_updated, now_ms) <= PROBE_INTERVAL_MS
}

/// Whether the status fields needed by the heartbeat decision are readable.
pub open spec fn spec_consumer_clock_ok(c: MaskConsumer, now_ms: i64) -> bool {
    c.status matches Some(st) && spec_status_clock_ok(st.phase is Some, st.last_updated, now_ms)
}

/// Decides the heartbeat: rewrite the Active phase unless it is already
/// current and fresh.
pub fn determine_status_action(instance: &MaskConsumer, now_ms: i64) -> (r: Result<
    ConsumerAction,
    Error,
>)
    ensures
        match r {
            Ok(a) => {
                &&& spec_consumer_clock_ok(*instance, now_ms)
                &&& a == (if spec_consumer_quiescent(*instance, now_ms) {
                    ConsumerAction::NoOp
                } else {
                    ConsumerAction::Active
                })
            },
            Err(e) => e is UserInput && !spec_consumer_clock_ok(*instance, now_ms),
        },
{
    let (phase, age) = match get_consumer_phase(instance, now_ms) {
        Ok(pa) => pa,
        Err(e) => {
            return Err(e);
        },
    };
    if !matches!(phase, MaskConsumerPhase::Active) || age > PROBE_INTERVAL_MS {
        Ok(ConsumerAction::Active)
    } else {
        Ok(ConsumerAction::NoOp)
    }
}

/// Decides the next action for a consumer, in priority order: delete
/// path, initial Pending write, provider assignment, reservation check,
/// secret projection, Active heartbeat.
///
/// `reservation` is the object fetched under the assignment's
/// deterministic reservation name (when an assignment exists) and
/// `secret_exists` reports whether the projected secret is present in
/// the consumer's namespace.
pub fn determine_action(
    instance: &MaskConsumer,
    reservation: Option<&MaskReservation>,
    secret_exists: bool,
    now_ms: i64,
) -> (r: Result<ConsumerAction, Error>)
    ensures
        instance.metadata.deletion_timestamp is Some ==> r == Ok::<ConsumerAction, Error>(
            ConsumerAction::Delete { delete_resource: false },
        ),
        instance.metadata.deletion_timestamp is None && spec_needs_pending(*instance) ==> r
            == Ok::<ConsumerAction, Error>(ConsumerAction::Pending),
        instance.metadata.deletion_timestamp is None && !spec_needs_pending(*instance)
            && spec_assigned_provider(*instance) is None ==> r == Ok::<ConsumerAction, Error>(
            ConsumerAction::Assign,
        ),
        instance.metadata.deletion_timestamp is None && !spec_needs_pending(*instance)
            && spec_assigned_provider(*instance) is Some && !spec_assignment_backed(
            *instance,
            spec_opt_res(reservation),
        ) ==> r == Ok::<ConsumerAction, Error>(ConsumerAction::Delete { delete_resource: true }),
        instance.metadata.deletion_timestamp is None && !spec_needs_pending(*instance)
            && spec_assignment_backed(*instance, spec_opt_res(reservation)) && !secret_exists ==> r
            == Ok::<ConsumerAction, Error>(ConsumerAction::CreateSecret),
        instance.metadata.deletion_timestamp is None && !spec_needs_pending(*instance)
            && spec_assignment_backed(*instance, spec_opt_res(reservation)) && secret_exists
            && spec_consumer_clock_ok(*instance, now_ms) ==> r == Ok::<ConsumerAction, Error>(
            if spec_consumer_quiescent(*instance, now_ms) {
                ConsumerAction::NoOp
            } else {
                ConsumerAction::Active
            },
        ),
        instance.metadata.deletion_timestamp is None && !spec_needs_pending(*instance)
            && spec_assignment_backed(*instance, spec_opt_res(reservation)) && secret_exists
            && !spec_consumer_clock_ok(*instance, now_ms) ==> r is Err,
{
    if instance.metadata.deletion_timestamp.is_some() {
        return Ok(ConsumerAction::Delete { delete_resource: false });
    }
    if needs_pending(instance) {
        return Ok(ConsumerAction::Pending);
    }
    let assigned = match get_assigned_provider(instance) {
        None => {
            return Ok(ConsumerAction::Assign);
        },
        Some(a) => a,
    };
    if !reservation_current(assigned, reservation) {
        return Ok(ConsumerAction::Delete { delete_resource: true });
    }
    if !secret_exists {
        return Ok(ConsumerAction::CreateSecret);
    }
    determine_status_action(instance, now_ms)
}

/// Builds the assignment record written to the consumer's status when
/// slot `slot` of `provider` has been reserved: it pins the provider's
/// incarnation by uid, the reservation's uid, and the projected secret
/// name `{consumer}-{providerUid}`.
pub fn assigned_provider_record(
    consumer_name: &str,
    provider: &MaskProvider,
    slot: usize,
    reservation_uid: &str,
) -> (r: AssignedProvider)
    ensures
        r.name@ == provider.metadata.name@,
        r.namespace@ == provider.metadata.namespace@,
        r.uid@ == provider.metadata.uid@,
        r.slot == slot,
        r.reservation@ == reservation_uid@,
        r.secret@ == spec_projected_secret_name(consumer_name@, provider.metadata.uid@),
{
    AssignedProvider {
        name: provider.metadata.name.clone(),
        namespace: provider.metadata.namespace.clone(),
        uid: provider.metadata.uid.clone(),
        slot,
        reservation: String::from_str(reservation_uid),
        secret: projected_secret_name(consumer_name, provider.metadata.uid.as_str()),
    }
}

/// Builds the message recorded on a successful slot acquisition:
/// `reserved slot {slot} for MaskProvider {namespace}/{name}`.
pub fn reserve_message(slot: usize, provider_namespace: &str, provider_name: &str) -> (r: String)
    ensures
        r@ == "reserved slot "@ + crate::slot::dec_digits(slot as nat) + " for MaskProvider "@
            + provider_namespace@ + "/"@ + provider_name@,
{
    let mut s = String::from_str("reserved slot ");
    let num = crate::slot::format_usize(slot);
    s.append(num.as_str());
    s.append(" for MaskProvider ");
    s.append(provider_namespace);
    s.append("/");
    s.append(provider_name);
    s
}

/// The assignment record, the reservation created by the winning
/// compare-and-swap, and the projected secret are named consistently:
/// re-deriving the reservation name from the record gives back exactly
/// the reservation that was created, that reservation carries the
/// consumer's uid, and the record's secret field names the copy the
/// projection step creates. These are the witnesses backing an
/// assignment: a consumer whose status records provider `A` is backed
/// by reservation `{A.name}-{A.slot}` in `A`'s namespace with the
/// consumer's uid, and by secret `{C.name}-{A.uid}` in its own
/// namespace.
pub proof fn lemma_assignment_backing(
    provider: MaskProvider,
    slot: usize,
    consumer_name: Seq<char>,
    consumer_uid: Seq<char>,
    a: AssignedProvider,
    res: MaskReservation,
)
    requires
        a.name@ == provider.metadata.name@,
        a.namespace@ == provider.metadata.namespace@,
        a.uid@ == provider.metadata.uid@,
        a.slot == slot,
        a.secret@ == spec_projected_secret_name(consumer_name, provider.metadata.uid@),
        res.metadata.name@ == crate::slot::spec_reservation_name(
            provider.metadata.name@,
            slot as nat,
        ),
        res.metadata.namespace@ == provider.metadata.namespace@,
        res.spec.uid@ == consumer_uid,
    ensures
        res.metadata.name@ == crate::slot::spec_reservation_name(a.name@, a.slot as nat),
        crate::slot::valid_slot_of_name(res.metadata.name@) == Some(a.slot as int),
        res.metadata.namespace@ == a.namespace@,
        res.spec.uid@ == consumer_uid,
        a.secret@ == spec_projected_secret_name(consumer_name, a.uid@),
{
    crate::slot::lemma_slot_name_round_trip(a.name@, a.slot as nat);
}

} // verus!
