//! The provider reconciler: verification and capacity publishing.

use vpn_operator::crd::{
    AssignedProvider, Mask, MaskConsumer, MaskConsumerSpec, MaskConsumerStatus, MaskProvider,
    MaskProviderSpec, MaskProviderStatus, MaskProviderVerifySpec, MaskReservation,
    MaskReservationSpec, MaskSpec, MaskStatus, ObjectMeta,
};
use vpn_operator::phases::{MaskPhase, MaskProviderPhase};
use vpn_operator::providers::{
    check_pod_scheduling_error, consumer_uses_provider, consumers_to_unassign, count_reservations,
    determine_action, determine_status_action, determine_verify_mask_action,
    determine_verify_pod_action, get_verify_timeout, is_probe_successful, provider_active_message,
    secret_missing_message, ContainerStatusView, MaskProviderAction, PodConditionView,
    VerifyPodView,
};
use vpn_operator::status::{provider_phase_status, provider_verified_status};


const STAMP_MS: i64 = 10_000;
const STAMP: &str = "1970-01-01T00:00:10Z";

fn meta(name: &str, namespace: &str, uid: &str) -> ObjectMeta {
    ObjectMeta {
        name: name.to_owned(),
        namespace: namespace.to_owned(),
        uid: uid.to_owned(),
        deletion_timestamp: None,
        finalizers: vec!["vpn.beebs.dev/finalizer".to_owned()],
        labels: Vec::new(),
        owner_uids: Vec::new(),
        creation_timestamp: None,
    }
}

fn provider(phase: Option<MaskProviderPhase>, verify: Option<MaskProviderVerifySpec>) -> MaskProvider {
    MaskProvider {
        metadata: meta("p", "vpn-ns", "p-uid"),
        spec: MaskProviderSpec {
            secret: "creds".to_owned(),
            max_slots: 2,
            tags: Some(vec!["t".to_owned()]),
            namespaces: None,
            verify,
        },
        status: Some(MaskProviderStatus {
            phase,
            message: None,
            last_updated: Some(STAMP.to_owned()),
            last_verified: None,
            active_slots: None,
        }),
    }
}

fn skip_verify() -> Option<MaskProviderVerifySpec> {
    Some(MaskProviderVerifySpec { skip: Some(true), timeout: None, interval: None, overrides: None })
}

fn pod(phase: &str, vpn_running: bool, probe_exit: Option<i64>) -> VerifyPodView {
    VerifyPodView {
        creation_timestamp: Some(STAMP.to_owned()),
        phase: Some(phase.to_owned()),
        container_statuses: vec![
            ContainerStatusView {
                name: "vpn".to_owned(),
                running: vpn_running,
                terminated_exit_code: None,
            },
            ContainerStatusView {
                name: "probe".to_owned(),
                running: probe_exit.is_none(),
                terminated_exit_code: probe_exit,
            },
        ],
        conditions: Vec::new(),
    }
}

fn reservation(slot: usize, owner_uid: &str) -> MaskReservation {
    MaskReservation {
        metadata: ObjectMeta {
            owner_uids: vec![owner_uid.to_owned()],
            ..meta(&format!("p-{slot}"), "vpn-ns", "r-uid")
        },
        spec: MaskReservationSpec {
            name: "m".to_owned(),
            namespace: "user-ns".to_owned(),
            uid: "c-uid".to_owned(),
        },
        status: None,
    }
}

#[test]
fn probe_success_overrides_pod_phase() {
    // The VPN container still runs while the probe exited cleanly: that
    // is success, even though the pod reads Running/NotReady.
    assert!(is_probe_successful(&pod("Running", true, Some(0))));
    assert!(!is_probe_successful(&pod("Running", true, None)));
    assert!(!is_probe_successful(&pod("Running", false, Some(0))));
    assert!(!is_probe_successful(&pod("Running", true, Some(1))));
}

#[test]
fn verified_pod_classification() {
    let p = provider(Some(MaskProviderPhase::Verifying), None);
    let a = determine_verify_pod_action(&p, &pod("Running", true, Some(0)), STAMP_MS).unwrap();
    assert!(matches!(a, MaskProviderAction::Verified));
    // Legacy fallback: a Succeeded pod verifies too.
    let a = determine_verify_pod_action(&p, &pod("Succeeded", false, None), STAMP_MS).unwrap();
    assert!(matches!(a, MaskProviderAction::Verified));
}

#[test]
fn pending_pod_with_scheduling_error_fails_verification() {
    let p = provider(Some(MaskProviderPhase::Verifying), None);
    let mut stuck = pod("Pending", false, None);
    stuck.conditions.push(PodConditionView {
        kind: "PodScheduled".to_owned(),
        status: "False".to_owned(),
        message: Some("0/3 nodes are available".to_owned()),
    });
    assert_eq!(
        check_pod_scheduling_error(&stuck),
        Some("0/3 nodes are available".to_owned())
    );
    let a = determine_verify_pod_action(&p, &stuck, STAMP_MS).unwrap();
    match a {
        MaskProviderAction::VerifyFailed(m) => assert_eq!(m, "0/3 nodes are available"),
        other => panic!("expected VerifyFailed, got {}", other.to_str()),
    }
}

#[test]
fn running_pod_waits_until_the_timeout() {
    let p = provider(Some(MaskProviderPhase::Verifying), None);
    // Under the default 60s budget: keep verifying.
    let a = determine_verify_pod_action(&p, &pod("Running", false, None), STAMP_MS + 30_000).unwrap();
    assert!(matches!(a, MaskProviderAction::Verifying(_)));
    // Over the budget: fail.
    let a = determine_verify_pod_action(&p, &pod("Running", false, None), STAMP_MS + 61_000).unwrap();
    assert!(matches!(a, MaskProviderAction::VerifyFailed(_)));
}

#[test]
fn custom_timeout_is_parsed_from_the_spec() {
    let verify = Some(MaskProviderVerifySpec {
        skip: None,
        timeout: Some("90s".to_owned()),
        interval: None,
        overrides: None,
    });
    let p = provider(Some(MaskProviderPhase::Verifying), verify);
    assert_eq!(get_verify_timeout(&p), 90_000);
    // A malformed timeout falls back to the default.
    let broken = Some(MaskProviderVerifySpec {
        skip: None,
        timeout: Some("ninety".to_owned()),
        interval: None,
        overrides: None,
    });
    let p = provider(Some(MaskProviderPhase::Verifying), broken);
    assert_eq!(get_verify_timeout(&p), 60_000);
}

#[test]
fn unknown_pod_phase_fails_verification() {
    let p = provider(Some(MaskProviderPhase::Verifying), None);
    let a = determine_verify_pod_action(&p, &pod("Failed", false, None), STAMP_MS).unwrap();
    assert!(matches!(a, MaskProviderAction::VerifyFailed(_)));
}

#[test]
fn verify_mask_classification() {
    fn mask_with(phase: Option<MaskPhase>) -> Mask {
        Mask {
            metadata: meta("p-verify", "vpn-ns", "vm-uid"),
            spec: MaskSpec { providers: None },
            status: Some(MaskStatus { phase, message: None, last_updated: None }),
        }
    }
    assert!(matches!(
        determine_verify_mask_action(&mask_with(Some(MaskPhase::Ready))),
        MaskProviderAction::CreateVerifyPod
    ));
    assert!(matches!(
        determine_verify_mask_action(&mask_with(Some(MaskPhase::Active))),
        MaskProviderAction::CreateVerifyPod
    ));
    assert!(matches!(
        determine_verify_mask_action(&mask_with(Some(MaskPhase::Waiting))),
        MaskProviderAction::Verifying(_)
    ));
    assert!(matches!(
        determine_verify_mask_action(&mask_with(Some(MaskPhase::ErrNoProviders))),
        MaskProviderAction::VerifyFailed(_)
    ));
    assert!(matches!(
        determine_verify_mask_action(&mask_with(None)),
        MaskProviderAction::Verifying(_)
    ));
}

#[test]
fn capacity_publish_counts_and_clamps() {
    let p = provider(Some(MaskProviderPhase::Ready), skip_verify());
    let reservations = vec![
        reservation(0, "p-uid"),
        reservation(1, "p-uid"),
        reservation(2, "p-uid"), // beyond capacity: count clamps to maxSlots
        reservation(3, "stale-uid"), // another incarnation: not counted
    ];
    assert_eq!(count_reservations(&reservations, &p), 3);
    let a = determine_status_action(&p, &reservations, STAMP_MS).unwrap();
    match a {
        MaskProviderAction::Active { active_slots } => assert_eq!(active_slots, 2),
        other => panic!("expected Active, got {}", other.to_str()),
    }
}

#[test]
fn idle_provider_publishes_ready_and_quiesces() {
    let p = provider(Some(MaskProviderPhase::Active), skip_verify());
    let a = determine_status_action(&p, &Vec::new(), STAMP_MS + 1_000).unwrap();
    assert!(matches!(a, MaskProviderAction::Ready));
    let settled = provider(Some(MaskProviderPhase::Ready), skip_verify());
    let a = determine_status_action(&settled, &Vec::new(), STAMP_MS + 1_000).unwrap();
    assert!(matches!(a, MaskProviderAction::NoOp));
    // Stale status is refreshed.
    let a = determine_status_action(&settled, &Vec::new(), STAMP_MS + 13_000).unwrap();
    assert!(matches!(a, MaskProviderAction::Ready));
}

#[test]
fn action_priority_is_delete_pending_finalizer_secret() {
    let mut p = provider(Some(MaskProviderPhase::Ready), skip_verify());
    p.metadata.deletion_timestamp = Some(STAMP.to_owned());
    let a = determine_action(&p, true, None, None, &Vec::new(), STAMP_MS).unwrap();
    assert!(matches!(a, MaskProviderAction::Delete));

    let fresh = MaskProvider { status: None, ..provider(None, skip_verify()) };
    let a = determine_action(&fresh, true, None, None, &Vec::new(), STAMP_MS).unwrap();
    assert!(matches!(a, MaskProviderAction::Pending));

    let mut unpinned = provider(Some(MaskProviderPhase::Ready), skip_verify());
    unpinned.metadata.finalizers.clear();
    let a = determine_action(&unpinned, true, None, None, &Vec::new(), STAMP_MS).unwrap();
    assert!(matches!(a, MaskProviderAction::AddFinalizer));

    let p = provider(Some(MaskProviderPhase::Ready), skip_verify());
    let a = determine_action(&p, false, None, None, &Vec::new(), STAMP_MS).unwrap();
    match a {
        MaskProviderAction::SecretNotFound(name) => assert_eq!(name, "creds"),
        other => panic!("expected SecretNotFound, got {}", other.to_str()),
    }
}

#[test]
fn verification_starts_unless_skipped_or_done() {
    // Never verified, not skipped: create the verification mask.
    let p = provider(Some(MaskProviderPhase::Pending), None);
    let a = determine_action(&p, true, None, None, &Vec::new(), STAMP_MS).unwrap();
    assert!(matches!(a, MaskProviderAction::CreateVerifyMask));
    // Skipped: go straight to the capacity publish.
    let p = provider(Some(MaskProviderPhase::Pending), skip_verify());
    let a = determine_action(&p, true, None, None, &Vec::new(), STAMP_MS).unwrap();
    assert!(matches!(a, MaskProviderAction::Ready));
    // Verified once, no interval: done for good.
    let mut p = provider(Some(MaskProviderPhase::Ready), None);
    p.status.as_mut().unwrap().last_verified = Some(STAMP.to_owned());
    let a = determine_action(&p, true, None, None, &Vec::new(), STAMP_MS + 1_000).unwrap();
    assert!(matches!(a, MaskProviderAction::NoOp));
    // An interval re-triggers verification once it has elapsed.
    let verify = Some(MaskProviderVerifySpec {
        skip: None,
        timeout: None,
        interval: Some("1m".to_owned()),
        overrides: None,
    });
    let mut p = provider(Some(MaskProviderPhase::Ready), verify);
    p.status.as_mut().unwrap().last_verified = Some(STAMP.to_owned());
    let a = determine_action(&p, true, None, None, &Vec::new(), STAMP_MS + 61_000).unwrap();
    assert!(matches!(a, MaskProviderAction::CreateVerifyMask));
}

#[test]
fn deletion_cascade_selects_the_right_consumers() {
    let p = provider(Some(MaskProviderPhase::Active), skip_verify());
    let assigned = MaskConsumer {
        metadata: meta("m1", "user-ns", "c1"),
        spec: MaskConsumerSpec { providers: None },
        status: Some(MaskConsumerStatus {
            phase: None,
            message: None,
            last_updated: None,
            provider: Some(AssignedProvider {
                name: "p".to_owned(),
                namespace: "vpn-ns".to_owned(),
                uid: "p-uid".to_owned(),
                slot: 0,
                reservation: "r".to_owned(),
                secret: "m1-p-uid".to_owned(),
            }),
            pod: None,
        }),
    };
    let elsewhere = MaskConsumer {
        metadata: meta("m2", "user-ns", "c2"),
        spec: MaskConsumerSpec { providers: None },
        status: None,
    };
    assert!(consumer_uses_provider(&assigned, &p));
    assert!(!consumer_uses_provider(&elsewhere, &p));
    let victims = consumers_to_unassign(vec![assigned, elsewhere], &p);
    assert_eq!(victims.len(), 1);
    assert_eq!(victims[0].metadata.name, "m1");
}

/// The verification sequence at decision level, driven entirely
/// through `determine_action`: a verify-enabled provider starts a
/// cycle, launches the probe pod once the verification mask holds a
/// slot, accepts the probe's success, and publishes Ready on the pass
/// after the Verified write.
#[test]
fn verification_walkthrough_reaches_ready() {
    // No probe objects yet, never verified: start the cycle.
    let p = provider(Some(MaskProviderPhase::Pending), None);
    let a = determine_action(&p, true, None, None, &Vec::new(), STAMP_MS).unwrap();
    assert!(matches!(a, MaskProviderAction::CreateVerifyMask));

    // The verification mask holds a slot: launch the probe pod.
    let vmask = Mask {
        metadata: meta("p-verify", "vpn-ns", "vm-uid"),
        spec: MaskSpec { providers: None },
        status: Some(MaskStatus {
            phase: Some(MaskPhase::Active),
            message: None,
            last_updated: None,
        }),
    };
    let p = provider(Some(MaskProviderPhase::Verifying), None);
    let a = determine_action(&p, true, None, Some(&vmask), &Vec::new(), STAMP_MS).unwrap();
    assert!(matches!(a, MaskProviderAction::CreateVerifyPod));

    // The probe succeeds: the decision is Verified.
    let probe_pod = pod("Running", true, Some(0));
    let a = determine_action(&p, true, Some(&probe_pod), Some(&vmask), &Vec::new(), STAMP_MS)
        .unwrap();
    assert!(matches!(a, MaskProviderAction::Verified));

    // After the Verified write, with the probe objects deleted, the
    // next pass publishes: no slot held, so Ready.
    let mut done = provider(None, None);
    done.status = Some(provider_verified_status(
        done.status,
        "VPN credentials verified as authentic.".to_owned(),
        STAMP.to_owned(),
    ));
    let a = determine_action(&done, true, None, None, &Vec::new(), STAMP_MS + 1_000).unwrap();
    assert!(matches!(a, MaskProviderAction::Ready));
}

#[test]
fn provider_messages_spell_out_details() {
    assert_eq!(provider_active_message(2), "VPN service is in use by 2 Masks.");
    assert_eq!(secret_missing_message("creds"), "Secret 'creds' does not exist.");
}

#[test]
fn verified_write_stamps_last_verified() {
    let st = provider_verified_status(
        None,
        "VPN credentials verified as authentic.".to_owned(),
        STAMP.to_owned(),
    );
    assert_eq!(st.phase, Some(MaskProviderPhase::Verified));
    assert_eq!(st.last_verified, Some(STAMP.to_owned()));

    let ready = provider_phase_status(
        Some(st),
        MaskProviderPhase::Ready,
        "VPN service is ready to use.".to_owned(),
        Some(0),
        STAMP.to_owned(),
    );
    assert_eq!(ready.phase, Some(MaskProviderPhase::Ready));
    assert_eq!(ready.active_slots, Some(0));
    // lastVerified survives later phase writes.
    assert_eq!(ready.last_verified, Some(STAMP.to_owned()));
}
