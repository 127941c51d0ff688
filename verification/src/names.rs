//! Well-known tokens and derived object names.
//!
//! Clients and the reconcilers match on these literal strings and naming
//! shapes, so they are part of the operator's external interface.

use vstd::prelude::*;
use vstd::string::StringExecFns;

use crate::slot::dash_join;

verus! {

/// The finalizer token placed on all four kinds.
pub open spec fn spec_finalizer_name() -> Seq<char> {
    "vpn.beebs.dev/finalizer"@
}

/// Returns the finalizer token.
pub fn finalizer_name() -> (r: &'static str)
    ensures
        r@ == spec_finalizer_name(),
{
    "vpn.beebs.dev/finalizer"
}

/// Label key on projected secrets whose value is the provider uid.
pub open spec fn spec_provider_uid_label() -> Seq<char> {
    "vpn.beebs.dev/owner"@
}

/// Returns the provider-uid label key.
pub fn provider_uid_label() -> (r: &'static str)
    ensures
        r@ == spec_provider_uid_label(),
{
    "vpn.beebs.dev/owner"
}

/// Label key that forces assignment to the provider with the uid in the
/// label value, bypassing phase, tag and namespace filters. Placed on
/// masks created for credential verification.
pub open spec fn spec_verification_label() -> Seq<char> {
    "vpn.beebs.dev/verify"@
}

/// Returns the verification label key.
pub fn verification_label() -> (r: &'static str)
    ensures
        r@ == spec_verification_label(),
{
    "vpn.beebs.dev/verify"
}

/// The field-manager identity used for status patches.
pub open spec fn spec_manager_name() -> Seq<char> {
    "vpn-operator"@
}

/// Returns the field-manager name.
pub fn manager_name() -> (r: &'static str)
    ensures
        r@ == spec_manager_name(),
{
    "vpn-operator"
}

/// Name of the mask a provider creates to reserve a slot for its own
/// credential verification: `{provider}-verify`.
pub open spec fn spec_verify_mask_name(provider: Seq<char>) -> Seq<char> {
    provider + "-verify"@
}

/// Builds the verification mask name for a provider.
pub fn get_verify_mask_name(name: &str) -> (r: String)
    ensures
        r@ == spec_verify_mask_name(name@),
{
    let mut s = String::from_str(name);
    s.append("-verify");
    s
}

/// Name of the secret projected into a consumer's namespace:
/// `{consumer}-{providerUid}`. Embedding the uid makes the name change
/// whenever the provider is recreated, so a stale copy is never mistaken
/// for the current credentials.
pub open spec fn spec_projected_secret_name(consumer: Seq<char>, provider_uid: Seq<char>) -> Seq<
    char,
> {
    consumer + seq!['-'] + provider_uid
}

/// Builds the projected secret name for a consumer and provider uid.
pub fn projected_secret_name(consumer_name: &str, provider_uid: &str) -> (r: String)
    ensures
        r@ == spec_projected_secret_name(consumer_name@, provider_uid@),
{
    dash_join(consumer_name, provider_uid)
}

} // verus!
