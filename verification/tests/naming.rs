//! Well-known tokens and derived object names.

use vpn_operator::names::{
    finalizer_name, get_verify_mask_name, manager_name, projected_secret_name,
    provider_uid_label, verification_label,
};

#[test]
fn tokens_are_the_published_literals() {
    assert_eq!(finalizer_name(), "vpn.beebs.dev/finalizer");
    assert_eq!(provider_uid_label(), "vpn.beebs.dev/owner");
    assert_eq!(verification_label(), "vpn.beebs.dev/verify");
    assert_eq!(manager_name(), "vpn-operator");
}

#[test]
fn verify_mask_name_appends_the_suffix() {
    assert_eq!(get_verify_mask_name("p"), "p-verify");
    assert_eq!(get_verify_mask_name("my-provider"), "my-provider-verify");
}

#[test]
fn projected_secret_name_embeds_the_provider_uid() {
    assert_eq!(projected_secret_name("m", "123-abc"), "m-123-abc");
    // The uid pins the provider incarnation: a recreated provider
    // yields a different secret name, so stale copies are never reused.
    assert_ne!(projected_secret_name("m", "uid-old"), projected_secret_name("m", "uid-new"));
}
