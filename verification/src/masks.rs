//! Decision logic of the `Mask` reconciler.
//!
//! The mask is the user-facing surface. It owns exactly one consumer,
//! named like itself in its own namespace, and its phase is a pure
//! function of that consumer's phase — the mirror proved below.

use vstd::prelude::*;
use vstd::string::StringExecFns;

use crate::crd::{Mask, MaskConsumer, MaskConsumerSpec, ObjectMeta};
use crate::error::Error;
use crate::names::{finalizer_name, spec_finalizer_name};
use crate::phases::{MaskConsumerPhase, MaskPhase};
use crate::strings::{clone_label_vec, clone_string_vec, spec_contains_string, vec_contains_str};
use crate::timing::rfc3339_millis_of;
use crate::PROBE_INTERVAL_MS;

verus! {

/// Action to be taken upon a `Mask` during reconciliation.
#[derive(Clone, Copy, Debug, PartialEq, Eq, Structural)]
pub enum MaskAction {
    /// Add the finalizer and set the phase to Pending.
    Pending,
    /// Create the child consumer that manages provider assignment.
    CreateConsumer,
    /// Remove the finalizer; the store cascades the child consumer.
    Delete,
    /// Mirror a waiting child: write the Waiting phase.
    Waiting,
    /// Mirror an active child: write the Active phase.
    Active,
    /// Mirror a child that found no providers: write ErrNoProviders.
    ErrNoProviders,
    /// Fully reconciled; check again after the probe interval.
    NoOp,
}

impl MaskAction {
    /// The action's name, for counters and logs.
    pub fn to_str(&self) -> (r: &'static str)
        ensures
            match self {
                MaskAction::Pending => r@ == "Pending"@,
                MaskAction::CreateConsumer => r@ == "CreateConsumer"@,
                MaskAction::Delete => r@ == "Delete"@,
                MaskAction::Waiting => r@ == "Waiting"@,
                MaskAction::Active => r@ == "Active"@,
                MaskAction::ErrNoProviders => r@ == "ErrNoProviders"@,
                MaskAction::NoOp => r@ == "NoOp"@,
            },
    {
        match self {
            MaskAction::Pending => "Pending",
            MaskAction::CreateConsumer => "CreateConsumer",
            MaskAction::Delete => "Delete",
            MaskAction::Waiting => "Waiting",
            MaskAction::Active => "Active",
            MaskAction::ErrNoProviders => "ErrNoProviders",
            MaskAction::NoOp => "NoOp",
        }
    }
}

/// Returns true if the mask is missing the finalizer.
pub fn needs_finalizer(instance: &Mask) -> (r: bool)
    ensures
        r == !spec_contains_string(instance.metadata.finalizers@, spec_finalizer_name()),
{
    !vec_contains_str(&instance.metadata.finalizers, finalizer_name())
}

/// Whether the mask still needs its initial Pending write.
pub open spec fn spec_needs_pending(m: Mask) -> bool {
    !spec_contains_string(m.metadata.finalizers@, spec_finalizer_name()) || match m.status {
        Some(st) => st.phase is None,
        None => true,
    }
}

/// Returns true if the mask requires the initial status write.
pub fn needs_pending(instance: &Mask) -> (r: bool)
    ensures
        r == spec_needs_pending(*instance),
{
    needs_finalizer(instance) || match &instance.status {
        Some(st) => st.phase.is_none(),
        None => true,
    }
}

/// Whether the fetched object is the mask's own child consumer: it
/// exists under the mask's name and carries the mask's uid among its
/// owners. A consumer of the same name owned by someone else — say a
/// deleted and recreated mask — does not count.
pub open spec fn spec_consumer_owned(m: Mask, consumer: Option<MaskConsumer>) -> bool {
    match consumer {
        Some(c) => spec_contains_string(c.metadata.owner_uids@, m.metadata.uid@),
        None => false,
    }
}

/// The view of an optionally fetched consumer.
pub open spec fn spec_opt_consumer(c: Option<&MaskConsumer>) -> Option<MaskConsumer> {
    match c {
        Some(m) => Some(*m),
        None => None,
    }
}

/// Decides whether the fetched consumer is the mask's own child.
pub fn get_consumer_owned(instance: &Mask, consumer: Option<&MaskConsumer>) -> (r: bool)
    ensures
        r == spec_consumer_owned(*instance, spec_opt_consumer(consumer)),
{
    match consumer {
        Some(c) => vec_contains_str(&c.metadata.owner_uids, instance.metadata.uid.as_str()),
        None => false,
    }
}

/// The mask phase mirroring a consumer phase: a waiting, pending or
/// terminating child shows as Waiting; an active child as Active; a
/// child that found no providers as ErrNoProviders.
pub open spec fn spec_mirror_phase(p: MaskConsumerPhase) -> MaskPhase {
    match p {
        MaskConsumerPhase::Pending => MaskPhase::Waiting,
        MaskConsumerPhase::Waiting => MaskPhase::Waiting,
        MaskConsumerPhase::Terminating => MaskPhase::Waiting,
        MaskConsumerPhase::Active => MaskPhase::Active,
        MaskConsumerPhase::ErrNoProviders => MaskPhase::ErrNoProviders,
    }
}

/// Computes the mask phase mirroring a consumer phase.
pub fn mirror_phase(p: MaskConsumerPhase) -> (r: MaskPhase)
    ensures
        r == spec_mirror_phase(p),
{
    match p {
        MaskConsumerPhase::Pending => MaskPhase::Waiting,
        MaskConsumerPhase::Waiting => MaskPhase::Waiting,
        MaskConsumerPhase::Terminating => MaskPhase::Waiting,
        MaskConsumerPhase::Active => MaskPhase::Active,
        MaskConsumerPhase::ErrNoProviders => MaskPhase::ErrNoProviders,
    }
}

/// The mask's phase is a deterministic function of its child consumer's
/// phase: any two consumers in the same phase make the mask mirror the
/// same phase, whatever else differs about them.
pub proof fn lemma_mask_phase_functional(c1: MaskConsumer, c2: MaskConsumer)
    requires
        c1.status matches Some(s1),
        c2.status matches Some(s2),
        c1.status->0.phase == c2.status->0.phase,
        c1.status->0.phase is Some,
    ensures
        spec_mirror_phase(c1.status->0.phase->0) == spec_mirror_phase(c2.status->0.phase->0),
{
}

/// The action that writes `phase`, used when the mirror decides the
/// mask must show that phase.
pub open spec fn spec_action_for_phase(p: MaskPhase) -> MaskAction {
    match p {
        MaskPhase::Waiting => MaskAction::Waiting,
        MaskPhase::Active => MaskAction::Active,
        MaskPhase::ErrNoProviders => MaskAction::ErrNoProviders,
        MaskPhase::Pending => MaskAction::Pending,
        MaskPhase::Ready => MaskAction::NoOp,
        MaskPhase::Terminating => MaskAction::NoOp,
    }
}

/// Whether the status fields needed by the mirror decision are readable.
pub open spec fn spec_mask_clock_ok(m: Mask, now_ms: i64) -> bool {
    &&& m.status matches Some(st)
    &&& st.phase is Some
    &&& st.last_updated matches Some(ts)
    &&& rfc3339_millis_of(ts@) matches Some(t)
    &&& t <= now_ms
}

/// Whether the mask's own status already shows `phase` and is fresh.
pub open spec fn spec_mask_status_recent(m: Mask, phase: MaskPhase, now_ms: i64) -> bool {
    &&& m.status matches Some(st)
    &&& st.phase == Some(phase)
    &&& st.last_updated matches Some(ts)
    &&& rfc3339_millis_of(ts@) matches Some(t)
    &&& t <= now_ms
    &&& now_ms - t <= PROBE_INTERVAL_MS
}

/// Returns the phase of the mask together with the age of its status,
/// measured against `now_ms`.
pub fn get_mask_phase(instance: &Mask, now_ms: i64) -> (r: Result<(MaskPhase, u64), Error>)
    ensures
        match r {
            Ok((p, age)) => {
                &&& instance.status matches Some(st)
                &&& st.phase == Some(p)
                &&& st.last_updated matches Some(ts)
                &&& rfc3339_millis_of(ts@) matches Some(t)
                &&& t <= now_ms
                &&& age == now_ms - t
            },
            Err(e) => e is UserInput && !spec_mask_clock_ok(*instance, now_ms),
        },
{
    let st = match &instance.status {
        Some(st) => st,
        None => {
            return Err(Error::UserInput(String::from_str("no status")));
        },
    };
    let phase = match st.phase {
        Some(p) => p,
        None => {
            return Err(Error::UserInput(String::from_str("no phase")));
        },
    };
    let ts = match &st.last_updated {
        Some(ts) => ts,
        None => {
            return Err(Error::UserInput(String::from_str("no lastUpdated")));
        },
    };
    match crate::timing::age_millis(ts.as_str(), now_ms) {
        Ok(age) => Ok((phase, age)),
        Err(e) => Err(e),
    }
}

/// Runs the mirror write only when due: the target phase differs from
/// the current one, or the status is stale or unreadable.
pub fn recent_status(instance: &Mask, phase: MaskPhase, action: MaskAction, now_ms: i64) -> (r:
    MaskAction)
    ensures
        r == (if spec_mask_status_recent(*instance, phase, now_ms) {
            MaskAction::NoOp
        } else {
            action
        }),
{
    match get_mask_phase(instance, now_ms) {
        Ok((cur, age)) => {
            if !(cur == phase) || age > PROBE_INTERVAL_MS {
                action
            } else {
                MaskAction::NoOp
            }
        },
        Err(_) => action,
    }
}

/// The phase the mirror targets for a given child consumer, if its
/// status already shows one.
pub open spec fn spec_mirror_target(consumer: MaskConsumer) -> Option<MaskPhase> {
    match consumer.status {
        Some(st) => match st.phase {
            Some(p) => Some(spec_mirror_phase(p)),
            None => None,
        },
        None => None,
    }
}

/// Decides the mirror action: map the child's phase onto the mask and
/// write it if it differs or the mask's status is stale. A child
/// without a phase yet asks for nothing.
pub fn determine_status_action(instance: &Mask, consumer: &MaskConsumer, now_ms: i64) -> (r:
    MaskAction)
    ensures
        spec_mirror_target(*consumer) is None ==> r == MaskAction::NoOp,
        spec_mirror_target(*consumer) matches Some(p) ==> r == (
        if spec_mask_status_recent(*instance, p, now_ms) {
            MaskAction::NoOp
        } else {
            spec_action_for_phase(p)
        }),
{
    let phase = match &consumer.status {
        Some(st) => match st.phase {
            Some(p) => p,
            None => {
                return MaskAction::NoOp;
            },
        },
        None => {
            return MaskAction::NoOp;
        },
    };
    match mirror_phase(phase) {
        MaskPhase::Waiting => recent_status(instance, MaskPhase::Waiting, MaskAction::Waiting, now_ms),
        MaskPhase::Active => recent_status(instance, MaskPhase::Active, MaskAction::Active, now_ms),
        MaskPhase::ErrNoProviders => recent_status(
            instance,
            MaskPhase::ErrNoProviders,
            MaskAction::ErrNoProviders,
            now_ms,
        ),
        _ => MaskAction::NoOp,
    }
}

/// Builds the child consumer a mask creates: the mask's own name and
/// namespace, owned by the mask's uid, the labels carried over, and
/// the desired provider tags inherited from the mask's spec.
pub fn new_consumer(instance: &Mask) -> (r: MaskConsumer)
    ensures
        r.metadata.name@ == instance.metadata.name@,
        r.metadata.namespace@ == instance.metadata.namespace@,
        r.metadata.owner_uids@.len() == 1,
        r.metadata.owner_uids@[0]@ == instance.metadata.uid@,
        spec_contains_string(r.metadata.owner_uids@, instance.metadata.uid@),
        r.metadata.labels@.len() == instance.metadata.labels@.len(),
        forall|i: int|
            0 <= i < r.metadata.labels@.len() ==> ((#[trigger] r.metadata.labels@[i]).0@
                == instance.metadata.labels@[i].0@ && r.metadata.labels@[i].1@
                == instance.metadata.labels@[i].1@),
        r.spec.providers is Some <==> instance.spec.providers is Some,
        instance.spec.providers is Some ==> r.spec.providers->0@.len()
            == instance.spec.providers->0@.len(),
        instance.spec.providers is Some ==> forall|i: int|
            0 <= i < r.spec.providers->0@.len() ==> (#[trigger] r.spec.providers->0@[i])@
                == instance.spec.providers->0@[i]@,
        r.metadata.deletion_timestamp is None,
        r.metadata.finalizers@.len() == 0,
        r.status is None,
{
    let mut owner_uids: Vec<String> = Vec::new();
    owner_uids.push(instance.metadata.uid.clone());
    let providers = match &instance.spec.providers {
        Some(wanted) => Some(clone_string_vec(wanted)),
        None => None,
    };
    let r = MaskConsumer {
        metadata: ObjectMeta {
            name: instance.metadata.name.clone(),
            namespace: instance.metadata.namespace.clone(),
            uid: String::new(),
            deletion_timestamp: None,
            finalizers: Vec::new(),
            labels: clone_label_vec(&instance.metadata.labels),
            owner_uids,
            creation_timestamp: None,
        },
        spec: MaskConsumerSpec { providers },
        status: None,
    };
    proof {
        assert(r.metadata.owner_uids@[0]@ == instance.metadata.uid@);
    }
    r
}

/// Decides the next action for a mask: delete path, initial Pending
/// write, creating the child consumer, and otherwise mirroring the
/// child's phase.
pub fn determine_action(instance: &Mask, consumer: Option<&MaskConsumer>, now_ms: i64) -> (r:
    MaskAction)
    ensures
        instance.metadata.deletion_timestamp is Some ==> r == MaskAction::Delete,
        instance.metadata.deletion_timestamp is None && spec_needs_pending(*instance) ==> r
            == MaskAction::Pending,
        instance.metadata.deletion_timestamp is None && !spec_needs_pending(*instance)
            && !spec_consumer_owned(*instance, spec_opt_consumer(consumer)) ==> r
            == MaskAction::CreateConsumer,
        instance.metadata.deletion_timestamp is None && !spec_needs_pending(*instance)
            && spec_consumer_owned(*instance, spec_opt_consumer(consumer)) ==> {
            &&& spec_mirror_target(spec_opt_consumer(consumer)->0) is None ==> r
                == MaskAction::NoOp
            &&& spec_mirror_target(spec_opt_consumer(consumer)->0) matches Some(p) ==> r == (
            if spec_mask_status_recent(*instance, p, now_ms) {
                MaskAction::NoOp
            } else {
                spec_action_for_phase(p)
            })
        },
{
    if instance.metadata.deletion_timestamp.is_some() {
        return MaskAction::Delete;
    }
    if needs_pending(instance) {
        return MaskAction::Pending;
    }
    if !get_consumer_owned(instance, consumer) {
        return MaskAction::CreateConsumer;
    }
    let c = match consumer {
        Some(c) => c,
        None => {
            return MaskAction::CreateConsumer;
        },
    };
    determine_status_action(instance, c, now_ms)
}

} // verus!
