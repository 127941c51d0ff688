//! Decision-level walkthroughs of the allocation protocol.

use vpn_operator::allocate::{
    list_active_providers, list_active_slots, list_inactive_slots, new_reservation,
};
use vpn_operator::consumers::{assigned_provider_record, determine_action, ConsumerAction};
use vpn_operator::crd::{
    MaskConsumer, MaskConsumerSpec, MaskConsumerStatus, MaskProvider, MaskProviderSpec,
    MaskProviderStatus, MaskReservation, MaskReservationSpec, ObjectMeta,
};
use vpn_operator::masks::mirror_phase;
use vpn_operator::phases::{MaskConsumerPhase, MaskPhase, MaskProviderPhase};
use vpn_operator::slot::parse_slot;

const STAMP: &str = "1970-01-01T00:00:10Z";
const STAMP_MS: i64 = 10_000;

fn meta(name: &str, namespace: &str, uid: &str) -> ObjectMeta {
    ObjectMeta {
        name: name.to_owned(),
        namespace: namespace.to_owned(),
        uid: uid.to_owned(),
        deletion_timestamp: None,
        finalizers: vec!["vpn.beebs.dev/finalizer".to_owned()],
        labels: Vec::new(),
        owner_uids: Vec::new(),
        creation_timestamp: None,
    }
}

fn ready_provider() -> MaskProvider {
    MaskProvider {
        metadata: meta("p", "vpn-ns", "p-uid"),
        spec: MaskProviderSpec {
            secret: "creds".to_owned(),
            max_slots: 1,
            tags: Some(vec!["t".to_owned()]),
            namespaces: None,
            verify: None,
        },
        status: Some(MaskProviderStatus {
            phase: Some(MaskProviderPhase::Ready),
            message: None,
            last_updated: Some(STAMP.to_owned()),
            last_verified: None,
            active_slots: Some(0),
        }),
    }
}

fn consumer_named(name: &str, uid: &str, status: Option<MaskConsumerStatus>) -> MaskConsumer {
    MaskConsumer {
        metadata: meta(name, "user-ns", uid),
        spec: MaskConsumerSpec { providers: Some(vec!["t".to_owned()]) },
        status,
    }
}

/// Basic assignment, from an empty cluster to an active consumer: the
/// provider with one slot and a matching tag is selected, slot zero is
/// acquired first-fit, and the derived names come out exactly as
/// published.
#[test]
fn basic_assignment_walkthrough() {
    // A pending consumer without an assignment asks to run allocation.
    let pending = consumer_named(
        "m",
        "c-uid",
        Some(MaskConsumerStatus {
            phase: Some(MaskConsumerPhase::Pending),
            message: None,
            last_updated: Some(STAMP.to_owned()),
            provider: None,
            pod: None,
        }),
    );
    assert_eq!(determine_action(&pending, None, false, STAMP_MS).unwrap(), ConsumerAction::Assign);

    // The eligible list holds exactly the matching provider.
    let tags = vec!["t".to_owned()];
    let eligible = list_active_providers(vec![ready_provider()], Some(&tags), "user-ns");
    assert_eq!(eligible.len(), 1);

    // No reservations exist, so slot 0 is the first candidate.
    let active = list_active_slots(&Vec::new(), "p-uid");
    let free = list_inactive_slots(eligible[0].spec.max_slots, &active);
    assert_eq!(free, vec![0]);

    // The compare-and-swap payload and the status record agree on the
    // published naming scheme.
    let body = new_reservation(&eligible[0], 0, "m", "user-ns", "c-uid");
    assert_eq!(body.metadata.name, "p-0");
    assert_eq!(body.spec.uid, "c-uid");
    let record = assigned_provider_record("m", &eligible[0], 0, "res-uid");
    assert_eq!(record.secret, "m-p-uid");
    assert_eq!(parse_slot(&body.metadata.name), Some(record.slot));

    // With the reservation backing the record and the secret projected,
    // the consumer settles into Active, and the mask mirrors it.
    let assigned = consumer_named(
        "m",
        "c-uid",
        Some(MaskConsumerStatus {
            phase: Some(MaskConsumerPhase::Active),
            message: None,
            last_updated: Some(STAMP.to_owned()),
            provider: Some(record),
            pod: None,
        }),
    );
    let backing = MaskReservation {
        metadata: ObjectMeta { uid: "res-uid".to_owned(), ..meta("p-0", "vpn-ns", "res-uid") },
        spec: MaskReservationSpec {
            name: "m".to_owned(),
            namespace: "user-ns".to_owned(),
            uid: "c-uid".to_owned(),
        },
        status: None,
    };
    let action = determine_action(&assigned, Some(&backing), true, STAMP_MS + 1_000).unwrap();
    assert_eq!(action, ConsumerAction::NoOp);
    assert_eq!(mirror_phase(MaskConsumerPhase::Active), MaskPhase::Active);
}

/// Contention at capacity one: with slot 0 held, a second consumer
/// finds no free slot and waits; once the holder's reservation is
/// released, the slot opens up again.
#[test]
fn waiting_then_handoff_walkthrough() {
    let provider = ready_provider();
    let holder = MaskReservation {
        metadata: ObjectMeta {
            owner_uids: vec!["p-uid".to_owned()],
            ..meta("p-0", "vpn-ns", "res-uid")
        },
        spec: MaskReservationSpec {
            name: "m0".to_owned(),
            namespace: "user-ns".to_owned(),
            uid: "c0-uid".to_owned(),
        },
        status: None,
    };

    // While the reservation stands, nothing is free.
    let active = list_active_slots(&vec![holder], "p-uid");
    assert_eq!(list_inactive_slots(provider.spec.max_slots, &active), Vec::<usize>::new());

    // Once it is gone, slot 0 is free for the waiting consumer.
    let active = list_active_slots(&Vec::new(), "p-uid");
    assert_eq!(list_inactive_slots(provider.spec.max_slots, &active), vec![0]);
}

/// The recreation race: leftovers of the old incarnation neither count
/// as occupancy for the new provider nor keep an old consumer alive.
#[test]
fn delete_recreate_walkthrough() {
    // The recreated provider has a fresh uid; the old reservation's
    // ownership no longer matches, so the full capacity reads free.
    let leftover = MaskReservation {
        metadata: ObjectMeta {
            owner_uids: vec!["uid-old".to_owned()],
            ..meta("p-0", "vpn-ns", "res-old")
        },
        spec: MaskReservationSpec {
            name: "m".to_owned(),
            namespace: "user-ns".to_owned(),
            uid: "c-uid".to_owned(),
        },
        status: None,
    };
    let active = list_active_slots(&vec![leftover], "uid-new");
    assert_eq!(list_inactive_slots(1, &active), vec![0]);

    // A consumer still pointing at the old incarnation sees its backing
    // reservation replaced (different uid) and self-deletes; its mask
    // shows Waiting while the replacement is handled.
    let record = vpn_operator::crd::AssignedProvider {
        name: "p".to_owned(),
        namespace: "vpn-ns".to_owned(),
        uid: "uid-old".to_owned(),
        slot: 0,
        reservation: "res-old".to_owned(),
        secret: "m-uid-old".to_owned(),
    };
    let stale = consumer_named(
        "m",
        "c-uid",
        Some(MaskConsumerStatus {
            phase: Some(MaskConsumerPhase::Active),
            message: None,
            last_updated: Some(STAMP.to_owned()),
            provider: Some(record),
            pod: None,
        }),
    );
    let replacement = MaskReservation {
        metadata: ObjectMeta { uid: "res-new".to_owned(), ..meta("p-0", "vpn-ns", "res-new") },
        spec: MaskReservationSpec {
            name: "other".to_owned(),
            namespace: "user-ns".to_owned(),
            uid: "other-uid".to_owned(),
        },
        status: None,
    };
    let action = determine_action(&stale, Some(&replacement), true, STAMP_MS).unwrap();
    assert_eq!(action, ConsumerAction::Delete { delete_resource: true });
    assert_eq!(mirror_phase(MaskConsumerPhase::Terminating), MaskPhase::Waiting);
}
