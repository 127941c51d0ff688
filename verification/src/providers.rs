//! Decision logic of the `MaskProvider` reconciler.
//!
//! The provider publishes capacity and, unless skipped, proves that its
//! credentials work by dialing the VPN from a probe pod. The probe is
//! cloaked behind a verification mask so that even the provider's own
//! check cannot exceed `maxSlots`. Success is read off the pod's
//! container statuses: the VPN container must still be running while
//! the probe container has exited cleanly — the pod phase alone is not
//! trusted.

use vstd::prelude::*;
use vstd::string::StringExecFns;

use crate::crd::{Mask, MaskConsumer, MaskProvider, MaskReservation, MaskSpec, ObjectMeta};
use crate::error::Error;
use crate::names::{
    finalizer_name, get_verify_mask_name, manager_name, spec_finalizer_name, spec_manager_name,
    spec_verification_label, spec_verify_mask_name, verification_label,
};
use crate::phases::{MaskPhase, MaskProviderPhase};
use crate::slot::{dec_digits, format_usize};
use crate::strings::{spec_contains_string, spec_label_value, str_eq_str, vec_contains_str};
use crate::timing::{duration_millis_of, parse_duration_millis, rfc3339_millis_of};
use crate::PROBE_INTERVAL_MS;

verus! {

/// The verification timeout used when the spec names none, in
/// milliseconds.
pub const DEFAULT_VERIFY_TIMEOUT_MS: u64 = 60000;

/// State of one container, as read from a pod's status.
#[derive(Clone, Debug)]
pub struct ContainerStatusView {
    /// Container name within the pod.
    pub name: String,
    /// Whether the container is currently running.
    pub running: bool,
    /// The exit code, when the container has terminated.
    pub terminated_exit_code: Option<i64>,
}

/// One entry of a pod's condition list.
#[derive(Clone, Debug)]
pub struct PodConditionView {
    /// Condition kind, such as `PodScheduled`.
    pub kind: String,
    /// Condition value: `True`, `False` or `Unknown`.
    pub status: String,
    /// Optional human-readable explanation.
    pub message: Option<String>,
}

/// What the provider reconciler reads from the verification pod.
#[derive(Clone, Debug)]
pub struct VerifyPodView {
    /// When the pod was created; verification ages are measured from it.
    pub creation_timestamp: Option<String>,
    /// The pod phase string, such as `Pending` or `Running`.
    pub phase: Option<String>,
    /// Status of each container in the pod.
    pub container_statuses: Vec<ContainerStatusView>,
    /// The pod's conditions.
    pub conditions: Vec<PodConditionView>,
}

/// Action to be taken upon a `MaskProvider` during reconciliation.
#[derive(Clone, Debug)]
pub enum MaskProviderAction {
    /// Add the finalizer and set the phase to Pending.
    Pending,
    /// Re-add a missing finalizer.
    AddFinalizer,
    /// Tear down verification objects, unassign every consumer and
    /// release the finalizer.
    Delete,
    /// The named credential secret is missing; reflect the error.
    SecretNotFound(String),
    /// Create the mask that reserves a slot for verification.
    CreateVerifyMask,
    /// Create the probe pod under the verification mask's consumer.
    CreateVerifyPod,
    /// Report verification progress with the given message.
    Verifying(String),
    /// Verification succeeded: stamp `lastVerified`, delete the probe
    /// pod and the verification mask.
    Verified,
    /// Verification failed with the given message; the probe objects
    /// are deleted so the next cycle can retry.
    VerifyFailed(String),
    /// Publish zero occupancy: phase Ready.
    Ready,
    /// Publish the occupancy count: phase Active.
    Active {
        /// Number of reservations currently held, clamped to capacity.
        active_slots: usize,
    },
    /// Fully reconciled; check again after the probe interval.
    NoOp,
}

impl MaskProviderAction {
    /// The action's name, for counters and logs.
    pub fn to_str(&self) -> (r: &'static str)
        ensures
            match self {
                MaskProviderAction::Pending => r@ == "Pending"@,
                MaskProviderAction::AddFinalizer => r@ == "AddFinalizer"@,
                MaskProviderAction::Delete => r@ == "Delete"@,
                MaskProviderAction::SecretNotFound(_) => r@ == "SecretNotFound"@,
                MaskProviderAction::CreateVerifyMask => r@ == "CreateVerifyMask"@,
                MaskProviderAction::CreateVerifyPod => r@ == "CreateVerifyPod"@,
                MaskProviderAction::Verifying(_) => r@ == "Verifying"@,
                MaskProviderAction::Verified => r@ == "Verified"@,
                MaskProviderAction::VerifyFailed(_) => r@ == "VerifyFailed"@,
                MaskProviderAction::Ready => r@ == "Ready"@,
                MaskProviderAction::Active { .. } => r@ == "Active"@,
                MaskProviderAction::NoOp => r@ == "NoOp"@,
            },
    {
        match self {
            MaskProviderAction::Pending => "Pending",
            MaskProviderAction::AddFinalizer => "AddFinalizer",
            MaskProviderAction::Delete => "Delete",
            MaskProviderAction::SecretNotFound(_) => "SecretNotFound",
            MaskProviderAction::CreateVerifyMask => "CreateVerifyMask",
            MaskProviderAction::CreateVerifyPod => "CreateVerifyPod",
            MaskProviderAction::Verifying(_) => "Verifying",
            MaskProviderAction::Verified => "Verified",
            MaskProviderAction::VerifyFailed(_) => "VerifyFailed",
            MaskProviderAction::Ready => "Ready",
            MaskProviderAction::Active { .. } => "Active",
            MaskProviderAction::NoOp => "NoOp",
        }
    }
}

/// Returns true if the provider is missing the finalizer.
pub fn needs_finalizer(instance: &MaskProvider) -> (r: bool)
    ensures
        r == !spec_contains_string(instance.metadata.finalizers@, spec_finalizer_name()),
{
    !vec_contains_str(&instance.metadata.finalizers, finalizer_name())
}

/// Whether the provider still needs its initial Pending write: no
/// status or no phase yet.
pub open spec fn spec_needs_pending(p: MaskProvider) -> bool {
    match p.status {
        Some(st) => st.phase is None,
        None => true,
    }
}

/// Returns true if the provider requires the initial status write.
pub fn needs_pending(instance: &MaskProvider) -> (r: bool)
    ensures
        r == spec_needs_pending(*instance),
{
    match &instance.status {
        Some(st) => st.phase.is_none(),
        None => true,
    }
}

/// The first container of the given name in a status list.
pub open spec fn spec_first_container(
    cs: Seq<ContainerStatusView>,
    name: Seq<char>,
) -> Option<ContainerStatusView>
    decreases cs.len(),
{
    if cs.len() == 0 {
        None
    } else if cs[0].name@ == name {
        Some(cs[0])
    } else {
        spec_first_container(cs.drop_first(), name)
    }
}

/// Finds the first container status with the given name.
fn find_container<'a>(cs: &'a Vec<ContainerStatusView>, name: &str) -> (r: Option<
    &'a ContainerStatusView,
>)
    ensures
        match r {
            Some(c) => spec_first_container(cs@, name@) == Some(*c),
            None => spec_first_container(cs@, name@) is None,
        },
{
    let n = cs.len();
    proof {
        assert(cs@.subrange(0, n as int) =~= cs@);
    }
    let mut i: usize = 0;
    while i < n
        invariant
            n == cs@.len(),
            i <= n,
            spec_first_container(cs@, name@) == spec_first_container(
                cs@.subrange(i as int, n as int),
                name@,
            ),
        decreases n - i,
    {
        proof {
            assert(cs@.subrange(i as int, n as int).drop_first() =~= cs@.subrange(
                i + 1 as int,
                n as int,
            ));
        }
        if str_eq_str(cs[i].name.as_str(), name) {
            return Some(&cs[i]);
        }
        i = i + 1;
    }
    proof {
        assert(cs@.subrange(n as int, n as int).len() == 0);
    }
    None
}

/// Whether the pod's container statuses prove the probe succeeded: the
/// VPN container is still running while the probe container terminated
/// with exit code zero. The pod phase is deliberately ignored — a pod
/// with one exited container reads `Running`/`NotReady` on common
/// runtimes even though verification is complete.
pub open spec fn spec_probe_successful(pod: VerifyPodView) -> bool {
    &&& spec_first_container(pod.container_statuses@, "vpn"@) matches Some(c) && c.running
    &&& spec_first_container(pod.container_statuses@, "probe"@) matches Some(c2)
        && c2.terminated_exit_code == Some(0i64)
}

/// Reads probe success off the container statuses.
pub fn is_probe_successful(pod: &VerifyPodView) -> (r: bool)
    ensures
        r == spec_probe_successful(*pod),
{
    let vpn_ok = match find_container(&pod.container_statuses, "vpn") {
        Some(c) => c.running,
        None => false,
    };
    if !vpn_ok {
        return false;
    }
    match find_container(&pod.container_statuses, "probe") {
        Some(c) => match c.terminated_exit_code {
            Some(code) => code == 0,
            None => false,
        },
        None => false,
    }
}

/// The first `PodScheduled = False` condition in the list.
pub open spec fn spec_first_sched_false(cs: Seq<PodConditionView>) -> Option<PodConditionView>
    decreases cs.len(),
{
    if cs.len() == 0 {
        None
    } else if cs[0].kind@ == "PodScheduled"@ && cs[0].status@ == "False"@ {
        Some(cs[0])
    } else {
        spec_first_sched_false(cs.drop_first())
    }
}

/// The message reported for a scheduling failure: the condition's own
/// message, or a fixed note when it carries none.
pub open spec fn spec_sched_error_message(c: PodConditionView) -> Seq<char> {
    match c.message {
        Some(m) => m@,
        None => "PodScheduled == False, but no message was provided."@,
    }
}

/// Checks the pod's conditions for a scheduling failure and returns the
/// message to surface, if one is found.
pub fn check_pod_scheduling_error(pod: &VerifyPodView) -> (r: Option<String>)
    ensures
        match r {
            Some(m) => spec_first_sched_false(pod.conditions@) matches Some(c) && m@
                == spec_sched_error_message(c),
            None => spec_first_sched_false(pod.conditions@) is None,
        },
{
    let cs = &pod.conditions;
    let n = cs.len();
    proof {
        assert(cs@.subrange(0, n as int) =~= cs@);
    }
    let mut i: usize = 0;
    while i < n
        invariant
            cs@ == pod.conditions@,
            n == cs@.len(),
            i <= n,
            spec_first_sched_false(cs@) == spec_first_sched_false(
                cs@.subrange(i as int, n as int),
            ),
        decreases n - i,
    {
        proof {
            assert(cs@.subrange(i as int, n as int).drop_first() =~= cs@.subrange(
                i + 1 as int,
                n as int,
            ));
        }
        if str_eq_str(cs[i].kind.as_str(), "PodScheduled") && str_eq_str(
            cs[i].status.as_str(),
            "False",
        ) {
            proof {
                let sub = cs@.subrange(i as int, n as int);
                assert(sub[0] == cs@[i as int]);
                assert(spec_first_sched_false(sub) == Some(sub[0]));
            }
            match &cs[i].message {
                Some(m) => {
                    return Some(m.clone());
                },
                None => {
                    return Some(
                        String::from_str("PodScheduled == False, but no message was provided."),
                    );
                },
            }
        }
        i = i + 1;
    }
    proof {
        assert(cs@.subrange(n as int, n as int).len() == 0);
    }
    None
}

/// The verification timeout in milliseconds: the parsed `verify.timeout`
/// when it is present and well-formed, the default otherwise.
pub open spec fn spec_verify_timeout_ms(p: MaskProvider) -> int {
    match p.spec.verify {
        Some(v) => match v.timeout {
            Some(t) => match duration_millis_of(t@) {
                Some(d) => d as int,
                None => DEFAULT_VERIFY_TIMEOUT_MS as int,
            },
            None => DEFAULT_VERIFY_TIMEOUT_MS as int,
        },
        None => DEFAULT_VERIFY_TIMEOUT_MS as int,
    }
}

/// Returns how long the probe pod may run before verification is
/// considered failed.
pub fn get_verify_timeout(instance: &MaskProvider) -> (r: u128)
    ensures
        r == spec_verify_timeout_ms(*instance),
{
    match &instance.spec.verify {
        Some(v) => match &v.timeout {
            Some(t) => match parse_duration_millis(t.as_str()) {
                Some(d) => d,
                None => DEFAULT_VERIFY_TIMEOUT_MS as u128,
            },
            None => DEFAULT_VERIFY_TIMEOUT_MS as u128,
        },
        None => DEFAULT_VERIFY_TIMEOUT_MS as u128,
    }
}

/// Whether the user asked to skip verification entirely.
pub open spec fn spec_verify_skipped(p: MaskProvider) -> bool {
    match p.spec.verify {
        Some(v) => v.skip == Some(true),
        None => false,
    }
}

/// Whether the pod's creation stamp is readable and not in the future.
pub open spec fn spec_pod_clock_ok(pod: VerifyPodView, now_ms: i64) -> bool {
    &&& pod.creation_timestamp matches Some(ts)
    &&& rfc3339_millis_of(ts@) matches Some(t)
    &&& t <= now_ms
}

/// The pod's age in milliseconds, meaningful under `spec_pod_clock_ok`.
pub open spec fn spec_pod_age_ms(pod: VerifyPodView, now_ms: i64) -> int {
    now_ms - rfc3339_millis_of(pod.creation_timestamp->0@)->0
}

/// Returns the time since the pod's creation.
pub fn get_pod_age(pod: &VerifyPodView, now_ms: i64) -> (r: Result<u64, Error>)
    ensures
        match r {
            Ok(age) => spec_pod_clock_ok(*pod, now_ms) && age == spec_pod_age_ms(*pod, now_ms),
            Err(e) => e is UserInput && !spec_pod_clock_ok(*pod, now_ms),
        },
{
    match &pod.creation_timestamp {
        Some(ts) => crate::timing::age_millis(ts.as_str(), now_ms),
        None => Err(Error::UserInput(String::from_str("pod creation timestamp is missing"))),
    }
}

/// Whether the probe pod has outlived the provider's timeout.
pub open spec fn spec_pod_timed_out(p: MaskProvider, pod: VerifyPodView, now_ms: i64) -> bool {
    spec_pod_age_ms(pod, now_ms) > spec_verify_timeout_ms(p)
}

/// Decides between failing a verification that has run too long and
/// reporting progress while the pod is still within its budget.
pub fn check_verify_timeout(instance: &MaskProvider, pod: &VerifyPodView, now_ms: i64) -> (r:
    Result<MaskProviderAction, Error>)
    ensures
        match r {
            Ok(a) => {
                &&& spec_pod_clock_ok(*pod, now_ms)
                &&& spec_pod_timed_out(*instance, *pod, now_ms) ==> (a matches
                    MaskProviderAction::VerifyFailed(m) && m@
                    == "Verification timed out waiting for Pod to schedule."@)
                &&& !spec_pod_timed_out(*instance, *pod, now_ms) ==> (a matches
                    MaskProviderAction::Verifying(m) && m@
                    == "Waiting on verification Pod to start."@)
            },
            Err(e) => e is UserInput && !spec_pod_clock_ok(*pod, now_ms),
        },
{
    let age = match get_pod_age(pod, now_ms) {
        Ok(age) => age,
        Err(e) => {
            return Err(e);
        },
    };
    let timeout = get_verify_timeout(instance);
    if age as u128 > timeout {
        Ok(
            MaskProviderAction::VerifyFailed(
                String::from_str("Verification timed out waiting for Pod to schedule."),
            ),
        )
    } else {
        Ok(MaskProviderAction::Verifying(String::from_str("Waiting on verification Pod to start.")))
    }
}

/// Whether the pod counts as verified: the container statuses prove the
/// probe succeeded, or the pod reports the `Succeeded` phase.
pub open spec fn spec_pod_verified(pod: VerifyPodView) -> bool {
    spec_probe_successful(pod) || (pod.phase matches Some(ph) && ph@ == "Succeeded"@)
}

/// Classifies the verification pod. Success is read from the container
/// statuses first; otherwise a pending pod is checked for scheduling
/// errors, pending and running pods are held against the timeout, and
/// anything else fails verification.
pub fn determine_verify_pod_action(
    instance: &MaskProvider,
    pod: &VerifyPodView,
    now_ms: i64,
) -> (r: Result<MaskProviderAction, Error>)
    ensures
        spec_pod_verified(*pod) ==> (r matches Ok(a) && a is Verified),
        !spec_pod_verified(*pod) && pod.phase is None ==> r is Err,
        pod.phase is Some && !spec_pod_verified(*pod) && pod.phase->0@ == "Pending"@
            && spec_first_sched_false(pod.conditions@) is Some ==> (r matches Ok(a) && a
            matches MaskProviderAction::VerifyFailed(m) && m@ == spec_sched_error_message(
            spec_first_sched_false(pod.conditions@)->0,
        )),
        pod.phase is Some && !spec_pod_verified(*pod) && (pod.phase->0@ == "Pending"@
            && spec_first_sched_false(pod.conditions@) is None || pod.phase->0@ == "Running"@)
            && spec_pod_clock_ok(*pod, now_ms) ==> (r matches Ok(a) && (a is Verifying
            || a is VerifyFailed) && (a is VerifyFailed <==> spec_pod_timed_out(
            *instance,
            *pod,
            now_ms,
        ))),
        pod.phase is Some && !spec_pod_verified(*pod) && (pod.phase->0@ == "Pending"@
            && spec_first_sched_false(pod.conditions@) is None || pod.phase->0@ == "Running"@)
            && !spec_pod_clock_ok(*pod, now_ms) ==> r is Err,
        pod.phase is Some && !spec_pod_verified(*pod) && pod.phase->0@ != "Pending"@
            && pod.phase->0@ != "Running"@ && pod.phase->0@ != "Succeeded"@ ==> (r matches Ok(a)
            && a matches MaskProviderAction::VerifyFailed(m) && m@
            == "Unknown error occurred during verification."@),
{
    proof {
        reveal_strlit("Pending");
        reveal_strlit("Running");
        reveal_strlit("Succeeded");
        assert("Pending"@.len() == 7 && "Pending"@[0] == 'P');
        assert("Running"@.len() == 7 && "Running"@[0] == 'R');
        assert("Succeeded"@.len() == 9);
    }
    if is_probe_successful(pod) {
        return Ok(MaskProviderAction::Verified);
    }
    let phase = match &pod.phase {
        Some(ph) => ph,
        None => {
            return Err(Error::UserInput(String::from_str("pod phase is missing")));
        },
    };
    if str_eq_str(phase.as_str(), "Pending") {
        match check_pod_scheduling_error(pod) {
            Some(message) => Ok(MaskProviderAction::VerifyFailed(message)),
            None => check_verify_timeout(instance, pod, now_ms),
        }
    } else if str_eq_str(phase.as_str(), "Running") {
        check_verify_timeout(instance, pod, now_ms)
    } else if str_eq_str(phase.as_str(), "Succeeded") {
        Ok(MaskProviderAction::Verified)
    } else {
        Ok(
            MaskProviderAction::VerifyFailed(
                String::from_str("Unknown error occurred during verification."),
            ),
        )
    }
}

/// Classifies the verification mask while no probe pod exists: a mask
/// still being processed keeps verification in progress, one holding a
/// slot lets the probe pod start, and a mask that found no providers —
/// impossible when the force-assignment label works — fails verification.
pub fn determine_verify_mask_action(mask: &Mask) -> (r: MaskProviderAction)
    ensures
        match mask.status {
            Some(st) => match st.phase {
                Some(MaskPhase::Ready) => r is CreateVerifyPod,
                Some(MaskPhase::Active) => r is CreateVerifyPod,
                Some(MaskPhase::Waiting) => r matches MaskProviderAction::Verifying(m) && m@
                    == "Waiting for the verification Mask to be assigned a slot."@,
                Some(MaskPhase::ErrNoProviders) => r matches MaskProviderAction::VerifyFailed(m)
                    && m@ == "Verification Mask observed unexpected ErrNoProviders."@,
                _ => r matches MaskProviderAction::Verifying(m) && m@
                    == "Waiting on the controller for the verification Mask."@,
            },
            None => r matches MaskProviderAction::Verifying(m) && m@
                == "Waiting on the controller for the verification Mask."@,
        },
{
    let phase = match &mask.status {
        Some(st) => st.phase,
        None => None,
    };
    match phase {
        Some(MaskPhase::Ready) => MaskProviderAction::CreateVerifyPod,
        Some(MaskPhase::Active) => MaskProviderAction::CreateVerifyPod,
        Some(MaskPhase::Waiting) => MaskProviderAction::Verifying(
            String::from_str("Waiting for the verification Mask to be assigned a slot."),
        ),
        Some(MaskPhase::ErrNoProviders) => MaskProviderAction::VerifyFailed(
            String::from_str("Verification Mask observed unexpected ErrNoProviders."),
        ),
        _ => MaskProviderAction::Verifying(
            String::from_str("Waiting on the controller for the verification Mask."),
        ),
    }
}

/// Whether a past verification is still fresh: `lastVerified` exists,
/// an interval is configured and well-formed, and less than the
/// interval has passed. Meaningful under `spec_reverify_clock_ok`.
pub open spec fn spec_last_verified(p: MaskProvider) -> Option<String> {
    match p.status {
        Some(st) => st.last_verified,
        None => None,
    }
}

/// The configured re-verification interval string, if any.
pub open spec fn spec_verify_interval(p: MaskProvider) -> Option<String> {
    match p.spec.verify {
        Some(v) => v.interval,
        None => None,
    }
}

/// The parsed re-verification interval in milliseconds, if one is
/// configured and well-formed.
pub open spec fn spec_reverify_interval_ms(p: MaskProvider) -> Option<u128> {
    match spec_verify_interval(p) {
        Some(i) => duration_millis_of(i@),
        None => None,
    }
}

/// The instant of the last successful verification, if the stamp is
/// parsable.
pub open spec fn spec_last_verified_instant(p: MaskProvider) -> Option<i64> {
    match spec_last_verified(p) {
        Some(l) => rfc3339_millis_of(l@),
        None => None,
    }
}

/// Whether nothing is owed to verification at this instant: it is
/// skipped, or it succeeded once and no re-verification interval is
/// configured, or the configured interval has not yet elapsed since
/// `lastVerified`.
pub open spec fn spec_verify_settled(p: MaskProvider, now_ms: i64) -> bool {
    ||| spec_verify_skipped(p)
    ||| (spec_last_verified(p) is Some && spec_verify_interval(p) is None)
    ||| (spec_last_verified(p) is Some && spec_reverify_interval_ms(p) is Some
        && spec_last_verified_instant(p) is Some && spec_last_verified_instant(p)->0 <= now_ms
        && now_ms - spec_last_verified_instant(p)->0 < spec_reverify_interval_ms(p)->0)

}

/// Whether the verification step asks for nothing this pass, so the
/// decision falls through to the capacity publish: verification is
/// skipped, or no probe objects exist and nothing is owed.
pub open spec fn spec_verify_quiet(
    p: MaskProvider,
    pod_absent: bool,
    mask_absent: bool,
    now_ms: i64,
) -> bool {
    spec_verify_skipped(p) || (pod_absent && mask_absent && spec_verify_settled(p, now_ms))
}

/// Decides whether verification is needed and what to do about it.
/// Nothing is returned when verification is skipped, already done and
/// not due again, or fresh enough under the configured interval; a
/// present probe pod is classified, a present verification mask is
/// inspected, and otherwise a verification cycle is started.
pub fn determine_verify_action(
    instance: &MaskProvider,
    verify_pod: Option<&VerifyPodView>,
    verify_mask: Option<&Mask>,
    now_ms: i64,
) -> (r: Result<Option<MaskProviderAction>, Error>)
    ensures
        spec_verify_skipped(*instance) ==> r == Ok::<Option<MaskProviderAction>, Error>(None),
        verify_pod is None && verify_mask is None && spec_verify_settled(*instance, now_ms) ==> r
            == Ok::<Option<MaskProviderAction>, Error>(None),
        !spec_verify_skipped(*instance) && verify_pod is None && verify_mask is None
            && spec_last_verified(*instance) is None ==> (r matches Ok(a) && a matches Some(act)
            && act is CreateVerifyMask),
        !spec_verify_skipped(*instance) && verify_pod is None && verify_mask is None
            && spec_last_verified(*instance) is Some && spec_verify_interval(*instance) is Some
            && spec_reverify_interval_ms(*instance) is None ==> r is Err,
        !spec_verify_skipped(*instance) && verify_pod is None && verify_mask is None
            && spec_last_verified(*instance) is Some && spec_reverify_interval_ms(*instance)
            is Some && (spec_last_verified_instant(*instance) is None
            || spec_last_verified_instant(*instance)->0 > now_ms) ==> r is Err,
        !spec_verify_skipped(*instance) && verify_pod is None && verify_mask is None
            && spec_last_verified(*instance) is Some && spec_reverify_interval_ms(*instance)
            is Some && spec_last_verified_instant(*instance) is Some
            && spec_last_verified_instant(*instance)->0 <= now_ms && (now_ms
            - spec_last_verified_instant(*instance)->0) >= spec_reverify_interval_ms(*instance)->0
            ==> (r matches Ok(a) && a matches Some(act) && act is CreateVerifyMask),
        !spec_verify_skipped(*instance) && verify_pod is Some && spec_pod_verified(
            *verify_pod->0,
        ) ==> (r matches Ok(a) && a matches Some(act) && act is Verified),
        !spec_verify_skipped(*instance) && verify_pod is Some && !spec_pod_verified(
            *verify_pod->0,
        ) && verify_pod->0.phase is None ==> r is Err,
        !spec_verify_skipped(*instance) && verify_pod is Some && !spec_pod_verified(
            *verify_pod->0,
        ) && verify_pod->0.phase is Some && verify_pod->0.phase->0@ == "Pending"@
            && spec_first_sched_false(verify_pod->0.conditions@) is Some ==> (r matches Ok(a)
            && a matches Some(act) && act matches MaskProviderAction::VerifyFailed(m) && m@
            == spec_sched_error_message(spec_first_sched_false(verify_pod->0.conditions@)->0)),
        !spec_verify_skipped(*instance) && verify_pod is Some && !spec_pod_verified(
            *verify_pod->0,
        ) && verify_pod->0.phase is Some && (verify_pod->0.phase->0@ == "Pending"@
            && spec_first_sched_false(verify_pod->0.conditions@) is None
            || verify_pod->0.phase->0@ == "Running"@) && spec_pod_clock_ok(
            *verify_pod->0,
            now_ms,
        ) ==> (r matches Ok(a) && a matches Some(act) && (act is Verifying
            || act is VerifyFailed) && (act is VerifyFailed <==> spec_pod_timed_out(
            *instance,
            *verify_pod->0,
            now_ms,
        ))),
        !spec_verify_skipped(*instance) && verify_pod is Some && !spec_pod_verified(
            *verify_pod->0,
        ) && verify_pod->0.phase is Some && (verify_pod->0.phase->0@ == "Pending"@
            && spec_first_sched_false(verify_pod->0.conditions@) is None
            || verify_pod->0.phase->0@ == "Running"@) && !spec_pod_clock_ok(
            *verify_pod->0,
            now_ms,
        ) ==> r is Err,
        !spec_verify_skipped(*instance) && verify_pod is Some && !spec_pod_verified(
            *verify_pod->0,
        ) && verify_pod->0.phase is Some && verify_pod->0.phase->0@ != "Pending"@
            && verify_pod->0.phase->0@ != "Running"@ && verify_pod->0.phase->0@ != "Succeeded"@
            ==> (r matches Ok(a) && a matches Some(act) && act matches
            MaskProviderAction::VerifyFailed(m) && m@
            == "Unknown error occurred during verification."@),
        !spec_verify_skipped(*instance) && verify_pod is None && verify_mask is Some
            && verify_mask->0.status is Some && (verify_mask->0.status->0.phase == Some(
            MaskPhase::Ready,
        ) || verify_mask->0.status->0.phase == Some(MaskPhase::Active)) ==> (r matches Ok(a)
            && a matches Some(act) && act is CreateVerifyPod),
        !spec_verify_skipped(*instance) && verify_pod is None && verify_mask is Some
            && verify_mask->0.status is Some && verify_mask->0.status->0.phase == Some(
            MaskPhase::Waiting,
        ) ==> (r matches Ok(a) && a matches Some(act) && act matches
            MaskProviderAction::Verifying(m) && m@
            == "Waiting for the verification Mask to be assigned a slot."@),
        !spec_verify_skipped(*instance) && verify_pod is None && verify_mask is Some
            && verify_mask->0.status is Some && verify_mask->0.status->0.phase == Some(
            MaskPhase::ErrNoProviders,
        ) ==> (r matches Ok(a) && a matches Some(act) && act matches
            MaskProviderAction::VerifyFailed(m) && m@
            == "Verification Mask observed unexpected ErrNoProviders."@),
        !spec_verify_skipped(*instance) && verify_pod is None && verify_mask is Some
            && (verify_mask->0.status is None || verify_mask->0.status->0.phase is None
            || verify_mask->0.status->0.phase == Some(MaskPhase::Pending)
            || verify_mask->0.status->0.phase == Some(MaskPhase::Terminating)) ==> (r matches Ok(
            a,
        ) && a matches Some(act) && act matches MaskProviderAction::Verifying(m) && m@
            == "Waiting on the controller for the verification Mask."@),
{
    let verify_configured = match &instance.spec.verify {
        Some(v) => {
            if match v.skip {
                Some(true) => true,
                _ => false,
            } {
                return Ok(None);
            }
            true
        },
        None => true,
    };
    let _ = verify_configured;
    if let Some(pod) = verify_pod {
        return match determine_verify_pod_action(instance, pod, now_ms) {
            Ok(a) => Ok(Some(a)),
            Err(e) => Err(e),
        };
    }
    if let Some(mask) = verify_mask {
        return Ok(Some(determine_verify_mask_action(mask)));
    }
    let last_verified = match &instance.status {
        Some(st) => match &st.last_verified {
            Some(lv) => Some(lv),
            None => None,
        },
        None => None,
    };
    if let Some(lv) = last_verified {
        let interval = match &instance.spec.verify {
            Some(v) => match &v.interval {
                Some(i) => Some(i),
                None => None,
            },
            None => None,
        };
        let interval = match interval {
            None => {
                return Ok(None);
            },
            Some(i) => i,
        };
        let interval_ms = match parse_duration_millis(interval.as_str()) {
            Some(d) => d,
            None => {
                return Err(Error::UserInput(String::from_str("malformed verify interval")));
            },
        };
        let age = match crate::timing::age_millis(lv.as_str(), now_ms) {
            Ok(age) => age,
            Err(e) => {
                return Err(e);
            },
        };
        if (age as u128) < interval_ms {
            return Ok(None);
        }
    }
    Ok(Some(MaskProviderAction::CreateVerifyMask))
}

/// Builds the mask that reserves a slot for verification: named
/// `{provider}-verify` in the provider's own namespace, owned by the
/// provider's uid, and labeled so that the allocation protocol
/// force-assigns this exact provider incarnation, bypassing the phase,
/// tag and namespace filters. Its spec names no tags: the label does
/// the constraining.
pub fn new_verify_mask(instance: &MaskProvider) -> (r: Mask)
    ensures
        r.metadata.name@ == spec_verify_mask_name(instance.metadata.name@),
        r.metadata.namespace@ == instance.metadata.namespace@,
        r.metadata.owner_uids@.len() == 1,
        r.metadata.owner_uids@[0]@ == instance.metadata.uid@,
        spec_contains_string(r.metadata.owner_uids@, instance.metadata.uid@),
        spec_label_value(r.metadata.labels@, spec_verification_label()) == Some(
            instance.metadata.uid@,
        ),
        spec_label_value(r.metadata.labels@, "app"@) == Some(spec_manager_name()),
        r.spec.providers is None,
        r.metadata.deletion_timestamp is None,
        r.metadata.finalizers@.len() == 0,
        r.status is None,
{
    let mut labels: Vec<(String, String)> = Vec::new();
    labels.push((String::from_str("app"), String::from_str(manager_name())));
    labels.push((String::from_str(verification_label()), instance.metadata.uid.clone()));
    let mut owner_uids: Vec<String> = Vec::new();
    owner_uids.push(instance.metadata.uid.clone());
    let r = Mask {
        metadata: ObjectMeta {
            name: get_verify_mask_name(instance.metadata.name.as_str()),
            namespace: instance.metadata.namespace.clone(),
            uid: String::new(),
            deletion_timestamp: None,
            finalizers: Vec::new(),
            labels,
            owner_uids,
            creation_timestamp: None,
        },
        spec: MaskSpec { providers: None },
        status: None,
    };
    proof {
        reveal_strlit("app");
        reveal_strlit("vpn.beebs.dev/verify");
        assert("app"@.len() == 3);
        assert("vpn.beebs.dev/verify"@.len() == 20);
        let ls = r.metadata.labels@;
        assert(ls.len() == 2);
        assert(ls[0].0@ == "app"@);
        assert(ls[1].0@ == spec_verification_label());
        assert(ls.drop_first()[0] == ls[1]);
        assert(spec_label_value(ls, "app"@) == Some(spec_manager_name()));
        assert(spec_label_value(ls.drop_first(), spec_verification_label()) == Some(
            instance.metadata.uid@,
        ));
        assert(r.metadata.owner_uids@[0]@ == instance.metadata.uid@);
    }
    r
}

/// The number of reservations in `rs` owned by `uid`.
pub open spec fn spec_count_owned(rs: Seq<MaskReservation>, uid: Seq<char>) -> nat
    decreases rs.len(),
{
    if rs.len() == 0 {
        0
    } else {
        spec_count_owned(rs.drop_last(), uid) + (if crate::allocate::spec_owned_by(
            rs.last().metadata,
            uid,
        ) {
            1nat
        } else {
            0nat
        })
    }
}

/// Counts the reservations owned by this provider. Ownership is
/// matched by uid so that leftovers of a deleted, recreated provider
/// of the same name are excluded.
pub fn count_reservations(reservations: &Vec<MaskReservation>, instance: &MaskProvider) -> (r:
    usize)
    ensures
        r == spec_count_owned(reservations@, instance.metadata.uid@),
{
    let n = reservations.len();
    let mut count: usize = 0;
    let mut i: usize = 0;
    while i < n
        invariant
            n == reservations@.len(),
            i <= n,
            count == spec_count_owned(
                reservations@.subrange(0, i as int),
                instance.metadata.uid@,
            ),
            count <= i,
        decreases n - i,
    {
        proof {
            let pre = reservations@.subrange(0, i as int);
            let post = reservations@.subrange(0, i + 1 as int);
            assert(post.drop_last() =~= pre);
            assert(post.last() == reservations@[i as int]);
        }
        if crate::allocate::owned_by(&reservations[i].metadata, instance.metadata.uid.as_str()) {
            count = count + 1;
        }
        i = i + 1;
    }
    proof {
        assert(reservations@.subrange(0, n as int) =~= reservations@);
    }
    count
}

/// Whether the provider's status is readable for the capacity publish.
pub open spec fn spec_provider_clock_ok(p: MaskProvider, now_ms: i64) -> bool {
    &&& p.status matches Some(st)
    &&& st.phase is Some
    &&& st.last_updated matches Some(ts)
    &&& rfc3339_millis_of(ts@) matches Some(t)
    &&& t <= now_ms
}

/// The occupancy the provider publishes: the owned-reservation count,
/// clamped to the capacity bound.
pub open spec fn spec_published_slots(p: MaskProvider, rs: Seq<MaskReservation>) -> nat {
    let c = spec_count_owned(rs, p.metadata.uid@);
    if c <= p.spec.max_slots {
        c
    } else {
        p.spec.max_slots as nat
    }
}

/// Whether the status already publishes the given occupancy with the
/// right phase and a fresh stamp.
pub open spec fn spec_publish_current(p: MaskProvider, slots: nat, now_ms: i64) -> bool {
    &&& spec_provider_clock_ok(p, now_ms)
    &&& p.status->0.phase == Some(
        if slots > 0 {
            MaskProviderPhase::Active
        } else {
            MaskProviderPhase::Ready
        },
    )
    &&& now_ms - rfc3339_millis_of(p.status->0.last_updated->0@)->0 <= PROBE_INTERVAL_MS
}

/// Returns the phase of the provider together with the age of its
/// status, measured against `now_ms`.
pub fn get_provider_phase(instance: &MaskProvider, now_ms: i64) -> (r: Result<
    (MaskProviderPhase, u64),
    Error,
>)
    ensures
        match r {
            Ok((p, age)) => {
                &&& spec_provider_clock_ok(*instance, now_ms)
                &&& instance.status->0.phase == Some(p)
                &&& age == now_ms - rfc3339_millis_of(instance.status->0.last_updated->0@)->0
            },
            Err(e) => e is UserInput && !spec_provider_clock_ok(*instance, now_ms),
        },
{
    let st = match &instance.status {
        Some(st) => st,
        None => {
            return Err(Error::UserInput(String::from_str("no status")));
        },
    };
    let phase = match st.phase {
        Some(p) => p,
        None => {
            return Err(Error::UserInput(String::from_str("no phase")));
        },
    };
    let ts = match &st.last_updated {
        Some(ts) => ts,
        None => {
            return Err(Error::UserInput(String::from_str("no lastUpdated")));
        },
    };
    match crate::timing::age_millis(ts.as_str(), now_ms) {
        Ok(age) => Ok((phase, age)),
        Err(e) => Err(e),
    }
}

/// Publishes capacity: counts the reservations owned by the provider,
/// clamps to `maxSlots`, and keeps the Ready/Active phase and count
/// fresh in the status.
pub fn determine_status_action(
    instance: &MaskProvider,
    reservations: &Vec<MaskReservation>,
    now_ms: i64,
) -> (r: Result<MaskProviderAction, Error>)
    ensures
        match r {
            Ok(a) => {
                &&& spec_provider_clock_ok(*instance, now_ms)
                &&& spec_publish_current(
                    *instance,
                    spec_published_slots(*instance, reservations@),
                    now_ms,
                ) ==> a is NoOp
                &&& (!spec_publish_current(
                    *instance,
                    spec_published_slots(*instance, reservations@),
                    now_ms,
                ) && spec_published_slots(*instance, reservations@) > 0) ==> (a matches
                    MaskProviderAction::Active { active_slots } && active_slots
                    == spec_published_slots(*instance, reservations@))
                &&& (!spec_publish_current(
                    *instance,
                    spec_published_slots(*instance, reservations@),
                    now_ms,
                ) && spec_published_slots(*instance, reservations@) == 0) ==> a is Ready
            },
            Err(e) => e is UserInput && !spec_provider_clock_ok(*instance, now_ms),
        },
{
    let counted = count_reservations(reservations, instance);
    let active_slots = if counted > instance.spec.max_slots {
        instance.spec.max_slots
    } else {
        counted
    };
    let (phase, age) = match get_provider_phase(instance, now_ms) {
        Ok(pa) => pa,
        Err(e) => {
            return Err(e);
        },
    };
    if active_slots > 0 {
        if !matches!(phase, MaskProviderPhase::Active) || age > PROBE_INTERVAL_MS {
            Ok(MaskProviderAction::Active { active_slots })
        } else {
            Ok(MaskProviderAction::NoOp)
        }
    } else {
        if !matches!(phase, MaskProviderPhase::Ready) || age > PROBE_INTERVAL_MS {
            Ok(MaskProviderAction::Ready)
        } else {
            Ok(MaskProviderAction::NoOp)
        }
    }
}

/// The steady prefix of the provider decision: not being deleted, the
/// phase initialized, and the finalizer in place.
pub open spec fn spec_provider_steady(p: MaskProvider) -> bool {
    &&& p.metadata.deletion_timestamp is None
    &&& !spec_needs_pending(p)
    &&& spec_contains_string(p.metadata.finalizers@, spec_finalizer_name())
}

/// Decides the next action for a provider: delete path, initial
/// Pending write, finalizer repair, missing-secret error, the
/// verification subgraph, and finally the capacity publish.
pub fn determine_action(
    instance: &MaskProvider,
    secret_exists: bool,
    verify_pod: Option<&VerifyPodView>,
    verify_mask: Option<&Mask>,
    reservations: &Vec<MaskReservation>,
    now_ms: i64,
) -> (r: Result<MaskProviderAction, Error>)
    ensures
        instance.metadata.deletion_timestamp is Some ==> (r matches Ok(a) && a is Delete),
        instance.metadata.deletion_timestamp is None && spec_needs_pending(*instance) ==> (r
            matches Ok(a) && a is Pending),
        instance.metadata.deletion_timestamp is None && !spec_needs_pending(*instance)
            && !spec_contains_string(instance.metadata.finalizers@, spec_finalizer_name()) ==> (r
            matches Ok(a) && a is AddFinalizer),
        instance.metadata.deletion_timestamp is None && !spec_needs_pending(*instance)
            && spec_contains_string(instance.metadata.finalizers@, spec_finalizer_name())
            && !secret_exists ==> (r matches Ok(a) && a matches
            MaskProviderAction::SecretNotFound(m) && m@ == instance.spec.secret@),
        spec_provider_steady(*instance) && secret_exists && !spec_verify_skipped(*instance)
            && verify_pod is Some && spec_pod_verified(*verify_pod->0) ==> (r matches Ok(a)
            && a is Verified),
        spec_provider_steady(*instance) && secret_exists && !spec_verify_skipped(*instance)
            && verify_pod is Some && !spec_pod_verified(*verify_pod->0)
            && verify_pod->0.phase is None ==> r is Err,
        spec_provider_steady(*instance) && secret_exists && !spec_verify_skipped(*instance)
            && verify_pod is Some && !spec_pod_verified(*verify_pod->0)
            && verify_pod->0.phase is Some && verify_pod->0.phase->0@ == "Pending"@
            && spec_first_sched_false(verify_pod->0.conditions@) is Some ==> (r matches Ok(a)
            && a matches MaskProviderAction::VerifyFailed(m) && m@ == spec_sched_error_message(
            spec_first_sched_false(verify_pod->0.conditions@)->0,
        )),
        spec_provider_steady(*instance) && secret_exists && !spec_verify_skipped(*instance)
            && verify_pod is Some && !spec_pod_verified(*verify_pod->0)
            && verify_pod->0.phase is Some && (verify_pod->0.phase->0@ == "Pending"@
            && spec_first_sched_false(verify_pod->0.conditions@) is None
            || verify_pod->0.phase->0@ == "Running"@) && spec_pod_clock_ok(
            *verify_pod->0,
            now_ms,
        ) ==> (r matches Ok(a) && (a is Verifying || a is VerifyFailed) && (a is VerifyFailed
            <==> spec_pod_timed_out(*instance, *verify_pod->0, now_ms))),
        spec_provider_steady(*instance) && secret_exists && !spec_verify_skipped(*instance)
            && verify_pod is Some && !spec_pod_verified(*verify_pod->0)
            && verify_pod->0.phase is Some && (verify_pod->0.phase->0@ == "Pending"@
            && spec_first_sched_false(verify_pod->0.conditions@) is None
            || verify_pod->0.phase->0@ == "Running"@) && !spec_pod_clock_ok(
            *verify_pod->0,
            now_ms,
        ) ==> r is Err,
        spec_provider_steady(*instance) && secret_exists && !spec_verify_skipped(*instance)
            && verify_pod is Some && !spec_pod_verified(*verify_pod->0)
            && verify_pod->0.phase is Some && verify_pod->0.phase->0@ != "Pending"@
            && verify_pod->0.phase->0@ != "Running"@ && verify_pod->0.phase->0@ != "Succeeded"@
            ==> (r matches Ok(a) && a matches MaskProviderAction::VerifyFailed(m) && m@
            == "Unknown error occurred during verification."@),
        spec_provider_steady(*instance) && secret_exists && !spec_verify_skipped(*instance)
            && verify_pod is None && verify_mask is Some && verify_mask->0.status is Some && (
        verify_mask->0.status->0.phase == Some(MaskPhase::Ready) || verify_mask->0.status->0.phase
            == Some(MaskPhase::Active)) ==> (r matches Ok(a) && a is CreateVerifyPod),
        spec_provider_steady(*instance) && secret_exists && !spec_verify_skipped(*instance)
            && verify_pod is None && verify_mask is Some && verify_mask->0.status is Some
            && verify_mask->0.status->0.phase == Some(MaskPhase::Waiting) ==> (r matches Ok(a)
            && a matches MaskProviderAction::Verifying(m) && m@
            == "Waiting for the verification Mask to be assigned a slot."@),
        spec_provider_steady(*instance) && secret_exists && !spec_verify_skipped(*instance)
            && verify_pod is None && verify_mask is Some && verify_mask->0.status is Some
            && verify_mask->0.status->0.phase == Some(MaskPhase::ErrNoProviders) ==> (r matches
            Ok(a) && a matches MaskProviderAction::VerifyFailed(m) && m@
            == "Verification Mask observed unexpected ErrNoProviders."@),
        spec_provider_steady(*instance) && secret_exists && !spec_verify_skipped(*instance)
            && verify_pod is None && verify_mask is Some && (verify_mask->0.status is None
            || verify_mask->0.status->0.phase is None || verify_mask->0.status->0.phase == Some(
            MaskPhase::Pending,
        ) || verify_mask->0.status->0.phase == Some(MaskPhase::Terminating)) ==> (r matches Ok(a)
            && a matches MaskProviderAction::Verifying(m) && m@
            == "Waiting on the controller for the verification Mask."@),
        spec_provider_steady(*instance) && secret_exists && !spec_verify_skipped(*instance)
            && verify_pod is None && verify_mask is None && spec_last_verified(*instance) is None
            ==> (r matches Ok(a) && a is CreateVerifyMask),
        spec_provider_steady(*instance) && secret_exists && !spec_verify_skipped(*instance)
            && verify_pod is None && verify_mask is None && spec_last_verified(*instance) is Some
            && spec_verify_interval(*instance) is Some && spec_reverify_interval_ms(*instance)
            is None ==> r is Err,
        spec_provider_steady(*instance) && secret_exists && !spec_verify_skipped(*instance)
            && verify_pod is None && verify_mask is None && spec_last_verified(*instance) is Some
            && spec_reverify_interval_ms(*instance) is Some && (spec_last_verified_instant(
            *instance,
        ) is None || spec_last_verified_instant(*instance)->0 > now_ms) ==> r is Err,
        spec_provider_steady(*instance) && secret_exists && !spec_verify_skipped(*instance)
            && verify_pod is None && verify_mask is None && spec_last_verified(*instance) is Some
            && spec_reverify_interval_ms(*instance) is Some && spec_last_verified_instant(
            *instance,
        ) is Some && spec_last_verified_instant(*instance)->0 <= now_ms && (now_ms
            - spec_last_verified_instant(*instance)->0) >= spec_reverify_interval_ms(*instance)->0
            ==> (r matches Ok(a) && a is CreateVerifyMask),
        spec_provider_steady(*instance) && secret_exists && spec_verify_quiet(
            *instance,
            verify_pod is None,
            verify_mask is None,
            now_ms,
        ) && !spec_provider_clock_ok(*instance, now_ms) ==> r is Err,
        spec_provider_steady(*instance) && secret_exists && spec_verify_quiet(
            *instance,
            verify_pod is None,
            verify_mask is None,
            now_ms,
        ) && spec_provider_clock_ok(*instance, now_ms) && spec_publish_current(
            *instance,
            spec_published_slots(*instance, reservations@),
            now_ms,
        ) ==> (r matches Ok(a) && a is NoOp),
        spec_provider_steady(*instance) && secret_exists && spec_verify_quiet(
            *instance,
            verify_pod is None,
            verify_mask is None,
            now_ms,
        ) && spec_provider_clock_ok(*instance, now_ms) && !spec_publish_current(
            *instance,
            spec_published_slots(*instance, reservations@),
            now_ms,
        ) && spec_published_slots(*instance, reservations@) > 0 ==> (r matches Ok(a) && a matches
            MaskProviderAction::Active { active_slots } && active_slots == spec_published_slots(
            *instance,
            reservations@,
        )),
        spec_provider_steady(*instance) && secret_exists && spec_verify_quiet(
            *instance,
            verify_pod is None,
            verify_mask is None,
            now_ms,
        ) && spec_provider_clock_ok(*instance, now_ms) && !spec_publish_current(
            *instance,
            spec_published_slots(*instance, reservations@),
            now_ms,
        ) && spec_published_slots(*instance, reservations@) == 0 ==> (r matches Ok(a)
            && a is Ready),
{
    if instance.metadata.deletion_timestamp.is_some() {
        return Ok(MaskProviderAction::Delete);
    }
    if needs_pending(instance) {
        return Ok(MaskProviderAction::Pending);
    }
    if needs_finalizer(instance) {
        return Ok(MaskProviderAction::AddFinalizer);
    }
    if !secret_exists {
        return Ok(MaskProviderAction::SecretNotFound(instance.spec.secret.clone()));
    }
    match determine_verify_action(instance, verify_pod, verify_mask, now_ms) {
        Ok(Some(action)) => {
            return Ok(action);
        },
        Ok(None) => {
        },
        Err(e) => {
            return Err(e);
        },
    }
    determine_status_action(instance, reservations, now_ms)
}

/// The verification handoff: a status just written by the Verified
/// action — under a fresh stamp, with no re-verification interval
/// configured — leaves the provider settled with its phase still
/// Verified. Once the probe pod and the verification mask are deleted,
/// the next pass's decision is therefore the capacity publish: Ready
/// when no slot is held, Active otherwise, never NoOp. This is the
/// coupling that carries a provider through Verifying, Verified and on
/// to Ready or Active.
pub proof fn lemma_verified_write_publishes(
    instance: MaskProvider,
    prev: Option<crate::crd::MaskProviderStatus>,
    msg: Seq<char>,
    stamp: Seq<char>,
    now_ms: i64,
)
    requires
        instance.status matches Some(st) && crate::status::spec_provider_verified_write(
            prev,
            st,
            msg,
            stamp,
        ),
        spec_verify_interval(instance) is None,
        rfc3339_millis_of(stamp) matches Some(t) && t <= now_ms,
    ensures
        spec_verify_settled(instance, now_ms),
        spec_verify_quiet(instance, true, true, now_ms),
        spec_provider_clock_ok(instance, now_ms),
        forall|slots: nat| !spec_publish_current(instance, slots, now_ms),
{
    assert forall|slots: nat| !spec_publish_current(instance, slots, now_ms) by {
        assert(instance.status->0.phase == Some(MaskProviderPhase::Verified));
    }
}

/// Whether the consumer's recorded assignment points at this provider,
/// matched by name, namespace and uid.
pub open spec fn spec_consumer_uses_provider(c: MaskConsumer, p: MaskProvider) -> bool {
    match c.status {
        Some(st) => match st.provider {
            Some(a) => a.name@ == p.metadata.name@ && a.namespace@ == p.metadata.namespace@
                && a.uid@ == p.metadata.uid@,
            None => false,
        },
        None => false,
    }
}

/// Decides whether the consumer is assigned this provider.
pub fn consumer_uses_provider(c: &MaskConsumer, instance: &MaskProvider) -> (r: bool)
    ensures
        r == spec_consumer_uses_provider(*c, *instance),
{
    match &c.status {
        Some(st) => match &st.provider {
            Some(a) => str_eq_str(a.name.as_str(), instance.metadata.name.as_str()) && str_eq_str(
                a.namespace.as_str(),
                instance.metadata.namespace.as_str(),
            ) && str_eq_str(a.uid.as_str(), instance.metadata.uid.as_str()),
            None => false,
        },
        None => false,
    }
}

/// Selects the consumers whose assignment must be nulled out when this
/// provider is deleted: those not already being deleted whose status
/// points at the provider.
pub fn consumers_to_unassign(consumers: Vec<MaskConsumer>, instance: &MaskProvider) -> (r: Vec<
    MaskConsumer,
>)
    ensures
        forall|k: int|
            0 <= k < r@.len() ==> spec_consumer_uses_provider(#[trigger] r@[k], *instance)
                && r@[k].metadata.deletion_timestamp is None,
        forall|k: int| 0 <= k < r@.len() ==> consumers@.contains(#[trigger] r@[k]),
        forall|i: int|
            0 <= i < consumers@.len() && spec_consumer_uses_provider(
                #[trigger] consumers@[i],
                *instance,
            ) && consumers@[i].metadata.deletion_timestamp is None ==> r@.contains(consumers@[i]),
{
    let ghost input = consumers@;
    let mut rest = consumers;
    let mut r: Vec<MaskConsumer> = Vec::new();
    let ghost mut done: int = 0;
    while rest.len() > 0
        invariant
            0 <= done <= input.len(),
            rest@ == input.subrange(done, input.len() as int),
            forall|k: int|
                0 <= k < r@.len() ==> spec_consumer_uses_provider(#[trigger] r@[k], *instance)
                    && r@[k].metadata.deletion_timestamp is None,
            forall|k: int| 0 <= k < r@.len() ==> input.contains(#[trigger] r@[k]),
            forall|j: int|
                0 <= j < done && spec_consumer_uses_provider(#[trigger] input[j], *instance)
                    && input[j].metadata.deletion_timestamp is None ==> r@.contains(input[j]),
        decreases rest@.len(),
    {
        proof {
            assert(rest@[0] == input[done]);
        }
        let c = rest.remove(0);
        let ghost prev = r@;
        if c.metadata.deletion_timestamp.is_none() && consumer_uses_provider(&c, instance) {
            r.push(c);
            proof {
                assert(r@[r@.len() - 1] == input[done]);
                assert(input.contains(input[done]));
            }
        }
        proof {
            assert forall|j: int|
                0 <= j < done + 1 && spec_consumer_uses_provider(#[trigger] input[j], *instance)
                    && input[j].metadata.deletion_timestamp is None implies r@.contains(
                input[j],
            ) by {
                if j < done {
                    let k = choose|k: int| 0 <= k < prev.len() && prev[k] == input[j];
                    assert(r@[k] == input[j]);
                } else {
                    assert(r@[r@.len() - 1] == input[done]);
                }
            }
            assert(rest@ =~= input.subrange(done + 1, input.len() as int));
            done = done + 1;
        }
    }
    r
}

/// Builds the message published with an Active capacity count:
/// `VPN service is in use by {n} Masks.`
pub fn provider_active_message(active_slots: usize) -> (r: String)
    ensures
        r@ == "VPN service is in use by "@ + dec_digits(active_slots as nat) + " Masks."@,
{
    let mut s = String::from_str("VPN service is in use by ");
    let num = format_usize(active_slots);
    s.append(num.as_str());
    s.append(" Masks.");
    s
}

/// Builds the message shown when the credential secret is missing:
/// `Secret '{name}' does not exist.`
pub fn secret_missing_message(secret_name: &str) -> (r: String)
    ensures
        r@ == "Secret '"@ + secret_name@ + "' does not exist."@,
{
    let mut s = String::from_str("Secret '");
    s.append(secret_name);
    s.append("' does not exist.");
    s
}

} // verus!
