//! The consumer reconciler's decisions and status writes.

use vpn_operator::consumers::{
    assigned_provider_record, determine_action, get_consumer_phase, needs_pending,
    reserve_message, ConsumerAction,
};
use vpn_operator::crd::{
    AssignedProvider, MaskConsumer, MaskConsumerSpec, MaskConsumerStatus, MaskProvider,
    MaskProviderSpec, MaskReservation, MaskReservationSpec, ObjectMeta,
};
use vpn_operator::phases::MaskConsumerPhase;
use vpn_operator::status::{
    consumer_assigned_status, consumer_phase_status, consumer_unassigned_status,
};

// 1970-01-01T00:00:10Z in milliseconds since the epoch.
const STAMP_MS: i64 = 10_000;
const STAMP: &str = "1970-01-01T00:00:10Z";

fn meta(name: &str, namespace: &str, uid: &str) -> ObjectMeta {
    ObjectMeta {
        name: name.to_owned(),
        namespace: namespace.to_owned(),
        uid: uid.to_owned(),
        deletion_timestamp: None,
        finalizers: vec!["vpn.beebs.dev/finalizer".to_owned()],
        labels: Vec::new(),
        owner_uids: Vec::new(),
        creation_timestamp: None,
    }
}

fn assignment() -> AssignedProvider {
    AssignedProvider {
        name: "p".to_owned(),
        namespace: "vpn-ns".to_owned(),
        uid: "p-uid".to_owned(),
        slot: 0,
        reservation: "res-uid".to_owned(),
        secret: "m-p-uid".to_owned(),
    }
}

fn consumer(phase: Option<MaskConsumerPhase>, provider: Option<AssignedProvider>) -> MaskConsumer {
    MaskConsumer {
        metadata: meta("m", "user-ns", "c-uid"),
        spec: MaskConsumerSpec { providers: Some(vec!["t".to_owned()]) },
        status: Some(MaskConsumerStatus {
            phase,
            message: None,
            last_updated: Some(STAMP.to_owned()),
            provider,
            pod: None,
        }),
    }
}

fn backing_reservation(uid: &str) -> MaskReservation {
    MaskReservation {
        metadata: ObjectMeta { uid: uid.to_owned(), ..meta("p-0", "vpn-ns", uid) },
        spec: MaskReservationSpec {
            name: "m".to_owned(),
            namespace: "user-ns".to_owned(),
            uid: "c-uid".to_owned(),
        },
        status: None,
    }
}

#[test]
fn deletion_wins_over_everything() {
    let mut c = consumer(Some(MaskConsumerPhase::Active), Some(assignment()));
    c.metadata.deletion_timestamp = Some(STAMP.to_owned());
    let action = determine_action(&c, None, false, STAMP_MS).unwrap();
    assert_eq!(action, ConsumerAction::Delete { delete_resource: false });
}

#[test]
fn fresh_consumer_goes_pending() {
    let mut c = consumer(None, None);
    assert!(needs_pending(&c));
    assert_eq!(determine_action(&c, None, false, STAMP_MS).unwrap(), ConsumerAction::Pending);

    c.metadata.finalizers.clear();
    c.status.as_mut().unwrap().phase = Some(MaskConsumerPhase::Active);
    assert!(needs_pending(&c));
    assert_eq!(determine_action(&c, None, false, STAMP_MS).unwrap(), ConsumerAction::Pending);
}

#[test]
fn unassigned_consumer_runs_allocation() {
    let c = consumer(Some(MaskConsumerPhase::Pending), None);
    assert_eq!(determine_action(&c, None, false, STAMP_MS).unwrap(), ConsumerAction::Assign);
}

#[test]
fn vanished_reservation_triggers_self_deletion() {
    let c = consumer(Some(MaskConsumerPhase::Active), Some(assignment()));
    // No reservation at all.
    let action = determine_action(&c, None, true, STAMP_MS).unwrap();
    assert_eq!(action, ConsumerAction::Delete { delete_resource: true });
    // Reservation of the right name but another incarnation.
    let stranger = backing_reservation("other-uid");
    let action = determine_action(&c, Some(&stranger), true, STAMP_MS).unwrap();
    assert_eq!(action, ConsumerAction::Delete { delete_resource: true });
}

#[test]
fn missing_secret_is_projected() {
    let c = consumer(Some(MaskConsumerPhase::Pending), Some(assignment()));
    let res = backing_reservation("res-uid");
    let action = determine_action(&c, Some(&res), false, STAMP_MS).unwrap();
    assert_eq!(action, ConsumerAction::CreateSecret);
}

#[test]
fn quiescent_consumer_is_noop_and_stale_one_refreshes() {
    let c = consumer(Some(MaskConsumerPhase::Active), Some(assignment()));
    let res = backing_reservation("res-uid");
    // Fresh status: nothing to do.
    let action = determine_action(&c, Some(&res), true, STAMP_MS + 1_000).unwrap();
    assert_eq!(action, ConsumerAction::NoOp);
    // Stale status (beyond the probe interval): refresh Active.
    let action = determine_action(&c, Some(&res), true, STAMP_MS + 13_000).unwrap();
    assert_eq!(action, ConsumerAction::Active);
    // Wrong phase: write Active.
    let waiting = consumer(Some(MaskConsumerPhase::Waiting), Some(assignment()));
    let action = determine_action(&waiting, Some(&res), true, STAMP_MS + 1_000).unwrap();
    assert_eq!(action, ConsumerAction::Active);
}

#[test]
fn consumer_phase_reports_age() {
    let c = consumer(Some(MaskConsumerPhase::Active), None);
    let (phase, age) = get_consumer_phase(&c, STAMP_MS + 5_000).unwrap();
    assert_eq!(phase, MaskConsumerPhase::Active);
    assert_eq!(age, 5_000);
    // A malformed stamp is bad user input.
    let mut broken = consumer(Some(MaskConsumerPhase::Active), None);
    broken.status.as_mut().unwrap().last_updated = Some("not a time".to_owned());
    assert!(get_consumer_phase(&broken, STAMP_MS).is_err());
}

#[test]
fn assignment_record_pins_names_and_uids() {
    let p = MaskProvider {
        metadata: meta("p", "vpn-ns", "p-uid"),
        spec: MaskProviderSpec {
            secret: "creds".to_owned(),
            max_slots: 1,
            tags: None,
            namespaces: None,
            verify: None,
        },
        status: None,
    };
    let record = assigned_provider_record("m", &p, 0, "res-uid");
    assert_eq!(record.name, "p");
    assert_eq!(record.namespace, "vpn-ns");
    assert_eq!(record.uid, "p-uid");
    assert_eq!(record.slot, 0);
    assert_eq!(record.reservation, "res-uid");
    assert_eq!(record.secret, "m-p-uid");
}

#[test]
fn reserve_message_spells_out_the_slot() {
    assert_eq!(reserve_message(0, "vpn-ns", "p"), "reserved slot 0 for MaskProvider vpn-ns/p");
    assert_eq!(reserve_message(12, "a", "b"), "reserved slot 12 for MaskProvider a/b");
}

#[test]
fn phase_writes_are_idempotent_modulo_stamp() {
    let first = consumer_phase_status(
        None,
        MaskConsumerPhase::Active,
        "Reserving slot with the assigned MaskProvider.".to_owned(),
        STAMP.to_owned(),
    );
    let second = consumer_phase_status(
        Some(first.clone()),
        MaskConsumerPhase::Active,
        "Reserving slot with the assigned MaskProvider.".to_owned(),
        "1970-01-01T00:00:20Z".to_owned(),
    );
    assert_eq!(first.phase, second.phase);
    assert_eq!(first.message, second.message);
    assert_eq!(first.provider, second.provider);
    assert_eq!(first.pod, second.pod);
    assert_ne!(first.last_updated, second.last_updated);
}

#[test]
fn assignment_write_keeps_phase_and_sets_record() {
    let prev = consumer_phase_status(
        None,
        MaskConsumerPhase::Pending,
        "Resource first appeared to the controller.".to_owned(),
        STAMP.to_owned(),
    );
    let written = consumer_assigned_status(
        Some(prev),
        assignment(),
        reserve_message(0, "vpn-ns", "p"),
        STAMP.to_owned(),
    );
    assert_eq!(written.phase, Some(MaskConsumerPhase::Pending));
    assert_eq!(written.provider, Some(assignment()));
}

#[test]
fn unassignment_clears_the_record() {
    let held = consumer_assigned_status(None, assignment(), "m".to_owned(), STAMP.to_owned());
    let cleared = consumer_unassigned_status(Some(held), STAMP.to_owned());
    assert_eq!(cleared.provider, None);
    assert_eq!(cleared.phase, Some(MaskConsumerPhase::Pending));
}
