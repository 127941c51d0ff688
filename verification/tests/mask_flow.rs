//! The mask reconciler: phase mirroring and child management.

use vpn_operator::crd::{
    Mask, MaskConsumer, MaskConsumerSpec, MaskConsumerStatus, MaskSpec, MaskStatus, ObjectMeta,
};
use vpn_operator::masks::{determine_action, determine_status_action, mirror_phase, MaskAction};
use vpn_operator::phases::{MaskConsumerPhase, MaskPhase};
use vpn_operator::status::mask_phase_status;

const STAMP_MS: i64 = 10_000;
const STAMP: &str = "1970-01-01T00:00:10Z";

fn meta(name: &str, namespace: &str, uid: &str) -> ObjectMeta {
    ObjectMeta {
        name: name.to_owned(),
        namespace: namespace.to_owned(),
        uid: uid.to_owned(),
        deletion_timestamp: None,
        finalizers: vec!["vpn.beebs.dev/finalizer".to_owned()],
        labels: Vec::new(),
        owner_uids: Vec::new(),
        creation_timestamp: None,
    }
}

fn mask(phase: Option<MaskPhase>) -> Mask {
    Mask {
        metadata: meta("m", "user-ns", "m-uid"),
        spec: MaskSpec { providers: Some(vec!["t".to_owned()]) },
        status: Some(MaskStatus {
            phase,
            message: None,
            last_updated: Some(STAMP.to_owned()),
        }),
    }
}

fn child(phase: Option<MaskConsumerPhase>) -> MaskConsumer {
    MaskConsumer {
        metadata: ObjectMeta { owner_uids: vec!["m-uid".to_owned()], ..meta("m", "user-ns", "c-uid") },
        spec: MaskConsumerSpec { providers: Some(vec!["t".to_owned()]) },
        status: Some(MaskConsumerStatus {
            phase,
            message: None,
            last_updated: Some(STAMP.to_owned()),
            provider: None,
            pod: None,
        }),
    }
}

#[test]
fn mirror_is_a_total_function_of_the_child_phase() {
    assert_eq!(mirror_phase(MaskConsumerPhase::Pending), MaskPhase::Waiting);
    assert_eq!(mirror_phase(MaskConsumerPhase::Waiting), MaskPhase::Waiting);
    assert_eq!(mirror_phase(MaskConsumerPhase::Terminating), MaskPhase::Waiting);
    assert_eq!(mirror_phase(MaskConsumerPhase::Active), MaskPhase::Active);
    assert_eq!(mirror_phase(MaskConsumerPhase::ErrNoProviders), MaskPhase::ErrNoProviders);
}

#[test]
fn deletion_wins() {
    let mut m = mask(Some(MaskPhase::Active));
    m.metadata.deletion_timestamp = Some(STAMP.to_owned());
    assert_eq!(determine_action(&m, None, STAMP_MS), MaskAction::Delete);
}

#[test]
fn fresh_mask_goes_pending() {
    let mut m = mask(None);
    assert_eq!(determine_action(&m, None, STAMP_MS), MaskAction::Pending);
    m.metadata.finalizers.clear();
    m.status.as_mut().unwrap().phase = Some(MaskPhase::Active);
    assert_eq!(determine_action(&m, None, STAMP_MS), MaskAction::Pending);
}

#[test]
fn missing_child_is_created() {
    let m = mask(Some(MaskPhase::Pending));
    assert_eq!(determine_action(&m, None, STAMP_MS), MaskAction::CreateConsumer);
    // A consumer of the same name owned by someone else does not count.
    let mut stray = child(Some(MaskConsumerPhase::Pending));
    stray.metadata.owner_uids = vec!["other-uid".to_owned()];
    assert_eq!(determine_action(&m, Some(&stray), STAMP_MS), MaskAction::CreateConsumer);
}

#[test]
fn waiting_child_shows_as_waiting() {
    let m = mask(Some(MaskPhase::Pending));
    let c = child(Some(MaskConsumerPhase::Waiting));
    assert_eq!(determine_action(&m, Some(&c), STAMP_MS), MaskAction::Waiting);
}

#[test]
fn active_child_shows_as_active_then_quiesces() {
    let m = mask(Some(MaskPhase::Waiting));
    let c = child(Some(MaskConsumerPhase::Active));
    // Phase differs: write Active.
    assert_eq!(determine_action(&m, Some(&c), STAMP_MS + 1_000), MaskAction::Active);
    // Phase already Active and fresh: nothing to do.
    let settled = mask(Some(MaskPhase::Active));
    assert_eq!(determine_action(&settled, Some(&c), STAMP_MS + 1_000), MaskAction::NoOp);
    // Stale status is refreshed even when the phase matches.
    assert_eq!(determine_action(&settled, Some(&c), STAMP_MS + 13_000), MaskAction::Active);
}

#[test]
fn err_no_providers_is_surfaced() {
    let m = mask(Some(MaskPhase::Waiting));
    let c = child(Some(MaskConsumerPhase::ErrNoProviders));
    assert_eq!(determine_action(&m, Some(&c), STAMP_MS), MaskAction::ErrNoProviders);
}

#[test]
fn child_without_phase_asks_nothing() {
    let m = mask(Some(MaskPhase::Waiting));
    let c = child(None);
    assert_eq!(determine_status_action(&m, &c, STAMP_MS), MaskAction::NoOp);
}

#[test]
fn terminating_child_shows_as_waiting() {
    // During a handoff the dying consumer reads Terminating; the user
    // sees the mask wait for its next slot.
    let m = mask(Some(MaskPhase::Active));
    let c = child(Some(MaskConsumerPhase::Terminating));
    assert_eq!(determine_action(&m, Some(&c), STAMP_MS), MaskAction::Waiting);
}

#[test]
fn mask_status_write_carries_phase_and_stamp() {
    let st = mask_phase_status(
        MaskPhase::Waiting,
        "Waiting on a slot from a MaskProvider.".to_owned(),
        STAMP.to_owned(),
    );
    assert_eq!(st.phase, Some(MaskPhase::Waiting));
    assert_eq!(st.last_updated, Some(STAMP.to_owned()));
}
