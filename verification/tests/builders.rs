//! The verified payload builders and the finalizer-token filter.

use vpn_operator::crd::{
    Mask, MaskProvider, MaskProviderSpec, MaskProviderStatus, MaskSpec, MaskStatus, ObjectMeta,
};
use vpn_operator::masks::new_consumer;
use vpn_operator::phases::MaskProviderPhase;
use vpn_operator::providers::new_verify_mask;
use vpn_operator::strings::without_string;

fn meta(name: &str, namespace: &str, uid: &str) -> ObjectMeta {
    ObjectMeta {
        name: name.to_owned(),
        namespace: namespace.to_owned(),
        uid: uid.to_owned(),
        deletion_timestamp: None,
        finalizers: vec!["vpn.beebs.dev/finalizer".to_owned()],
        labels: vec![("team".to_owned(), "video".to_owned())],
        owner_uids: Vec::new(),
        creation_timestamp: None,
    }
}

#[test]
fn child_consumer_inherits_name_labels_and_tags() {
    let mask = Mask {
        metadata: meta("m", "user-ns", "m-uid"),
        spec: MaskSpec { providers: Some(vec!["t".to_owned(), "u".to_owned()]) },
        status: Some(MaskStatus { phase: None, message: None, last_updated: None }),
    };
    let c = new_consumer(&mask);
    assert_eq!(c.metadata.name, "m");
    assert_eq!(c.metadata.namespace, "user-ns");
    assert_eq!(c.metadata.owner_uids, vec!["m-uid".to_owned()]);
    assert_eq!(c.metadata.labels, vec![("team".to_owned(), "video".to_owned())]);
    assert_eq!(c.spec.providers, Some(vec!["t".to_owned(), "u".to_owned()]));
    assert!(c.status.is_none());
    assert!(c.metadata.finalizers.is_empty());

    let untagged = Mask {
        metadata: meta("m2", "user-ns", "m2-uid"),
        spec: MaskSpec { providers: None },
        status: None,
    };
    assert_eq!(new_consumer(&untagged).spec.providers, None);
}

#[test]
fn verify_mask_is_labeled_for_force_assignment() {
    let provider = MaskProvider {
        metadata: meta("p", "vpn-ns", "p-uid"),
        spec: MaskProviderSpec {
            secret: "creds".to_owned(),
            max_slots: 1,
            tags: Some(vec!["t".to_owned()]),
            namespaces: None,
            verify: None,
        },
        status: Some(MaskProviderStatus {
            phase: Some(MaskProviderPhase::Pending),
            message: None,
            last_updated: None,
            last_verified: None,
            active_slots: None,
        }),
    };
    let m = new_verify_mask(&provider);
    assert_eq!(m.metadata.name, "p-verify");
    assert_eq!(m.metadata.namespace, "vpn-ns");
    assert_eq!(m.metadata.owner_uids, vec!["p-uid".to_owned()]);
    assert_eq!(m.spec.providers, None);
    assert!(m.status.is_none());
    let labels: Vec<(String, String)> = m.metadata.labels;
    assert!(labels.contains(&("app".to_owned(), "vpn-operator".to_owned())));
    assert!(labels.contains(&("vpn.beebs.dev/verify".to_owned(), "p-uid".to_owned())));
}

#[test]
fn finalizer_filter_removes_only_the_operator_token() {
    let current = vec![
        "other.example/keep".to_owned(),
        "vpn.beebs.dev/finalizer".to_owned(),
        "another/keep".to_owned(),
    ];
    let remaining = without_string(&current, "vpn.beebs.dev/finalizer");
    assert_eq!(remaining, vec!["other.example/keep".to_owned(), "another/keep".to_owned()]);
    // Idempotent: nothing left to remove.
    let again = without_string(&remaining, "vpn.beebs.dev/finalizer");
    assert_eq!(again, remaining);
    // Absent token: the list is copied unchanged.
    let untouched = without_string(&vec!["a".to_owned()], "vpn.beebs.dev/finalizer");
    assert_eq!(untouched, vec!["a".to_owned()]);
}
