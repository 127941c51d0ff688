//! The four custom resources, modeled as plain values.
//!
//! Each object carries the metadata fields the reconcilers actually
//! read, its spec, and an optional status subresource. The surrounding
//! process converts fetched store objects into these values and hands
//! them to the decision functions.

use vstd::prelude::*;

use crate::phases::{MaskConsumerPhase, MaskPhase, MaskProviderPhase, MaskReservationPhase};

verus! {

/// The metadata fields of a stored object that the reconcilers read.
#[derive(Clone, Debug)]
pub struct ObjectMeta {
    /// Object name, unique per namespace and kind.
    pub name: String,
    /// Namespace the object lives in.
    pub namespace: String,
    /// Unique id of this incarnation of the object; a deleted and
    /// recreated object of the same name has a different uid.
    pub uid: String,
    /// Set when deletion has been requested; the object lingers while
    /// finalizers remain.
    pub deletion_timestamp: Option<String>,
    /// Tokens that block garbage collection until removed.
    pub finalizers: Vec<String>,
    /// Key-value labels.
    pub labels: Vec<(String, String)>,
    /// Uids of the owners of this object.
    pub owner_uids: Vec<String>,
    /// When the object was created.
    pub creation_timestamp: Option<String>,
}

/// Overrides for the individual containers of the verification pod,
/// kept separate so that users need not restate the whole container
/// array. Each is deep-merged onto the controller-built container.
#[derive(Debug)]
pub struct MaskProviderVerifyContainerOverridesSpec {
    /// Customization for the init container that records the initial IP.
    pub init: Option<crate::merge::JsonValue>,
    /// Customization for the container that dials the VPN.
    pub vpn: Option<crate::merge::JsonValue>,
    /// Customization for the container that probes for the IP change.
    pub probe: Option<crate::merge::JsonValue>,
}

/// Overrides for the verification pod as a whole.
#[derive(Debug)]
pub struct MaskProviderVerifyOverridesSpec {
    /// Per-container customization.
    pub containers: Option<MaskProviderVerifyContainerOverridesSpec>,
    /// Customization deep-merged onto the assembled pod.
    pub pod: Option<crate::merge::JsonValue>,
}

/// Configuration for verifying provider credentials with a probe pod.
#[derive(Debug)]
pub struct MaskProviderVerifySpec {
    /// Skip credential verification entirely.
    pub skip: Option<bool>,
    /// Duration string bounding how long the probe pod may take.
    pub timeout: Option<String>,
    /// Duration string for periodic re-verification; unset means verify once.
    pub interval: Option<String>,
    /// Customization of the verification pod.
    pub overrides: Option<MaskProviderVerifyOverridesSpec>,
}

/// Spec of a `MaskProvider`: a credential blob with a capacity bound.
#[derive(Debug)]
pub struct MaskProviderSpec {
    /// Name of the credential secret in the provider's namespace.
    pub secret: String,
    /// Hard bound on concurrently reserved slots.
    pub max_slots: usize,
    /// Optional short names that consumers can select providers by.
    pub tags: Option<Vec<String>>,
    /// Optional allowlist of namespaces permitted to use this provider.
    pub namespaces: Option<Vec<String>>,
    /// Optional credential verification settings.
    pub verify: Option<MaskProviderVerifySpec>,
}

/// Status of a `MaskProvider`.
#[derive(Clone, Debug)]
pub struct MaskProviderStatus {
    /// Current phase.
    pub phase: Option<MaskProviderPhase>,
    /// Human-readable detail for the phase.
    pub message: Option<String>,
    /// When this status was last written.
    pub last_updated: Option<String>,
    /// When the credentials were last verified.
    pub last_verified: Option<String>,
    /// Published count of reserved slots; advisory, may be stale.
    pub active_slots: Option<usize>,
}

/// Spec of a `Mask`: the user's request for credentials.
#[derive(Clone, Debug)]
pub struct MaskSpec {
    /// Optional provider tags to match; empty means any provider.
    pub providers: Option<Vec<String>>,
}

/// Status of a `Mask`.
#[derive(Clone, Debug)]
pub struct MaskStatus {
    /// Current phase.
    pub phase: Option<MaskPhase>,
    /// Human-readable detail for the phase.
    pub message: Option<String>,
    /// When this status was last written.
    pub last_updated: Option<String>,
}

/// The record of an assignment, stored on a consumer's status.
#[derive(Clone, Debug, PartialEq)]
pub struct AssignedProvider {
    /// Name of the assigned provider.
    pub name: String,
    /// Namespace of the assigned provider.
    pub namespace: String,
    /// Uid of the assigned provider, pinning the exact incarnation.
    pub uid: String,
    /// Slot index held; always below the provider's `max_slots`.
    pub slot: usize,
    /// Uid of the reservation object locking the slot.
    pub reservation: String,
    /// Name of the projected credential secret in the consumer's namespace.
    pub secret: String,
}

/// Spec of a `MaskConsumer`, inherited from its parent mask.
#[derive(Clone, Debug)]
pub struct MaskConsumerSpec {
    /// Desired provider tags, copied from the parent mask.
    pub providers: Option<Vec<String>>,
}

/// Status of a `MaskConsumer`.
#[derive(Clone, Debug)]
pub struct MaskConsumerStatus {
    /// Current phase.
    pub phase: Option<MaskConsumerPhase>,
    /// Human-readable detail for the phase.
    pub message: Option<String>,
    /// When this status was last written.
    pub last_updated: Option<String>,
    /// The assignment held, if any.
    pub provider: Option<AssignedProvider>,
    /// Name of the pod consuming the credentials, if any.
    pub pod: Option<String>,
}

/// Spec of a `MaskReservation`: the cross-namespace back-reference to
/// the consumer holding the slot.
#[derive(Clone, Debug)]
pub struct MaskReservationSpec {
    /// Name of the consumer reserving the slot.
    pub name: String,
    /// Namespace of that consumer.
    pub namespace: String,
    /// Uid of that consumer.
    pub uid: String,
}

/// Status of a `MaskReservation`.
#[derive(Clone, Debug)]
pub struct MaskReservationStatus {
    /// Current phase.
    pub phase: Option<MaskReservationPhase>,
    /// Human-readable detail for the phase.
    pub message: Option<String>,
    /// When this status was last written.
    pub last_updated: Option<String>,
}

/// A `MaskProvider` object as read from the store.
#[derive(Debug)]
pub struct MaskProvider {
    /// Object metadata.
    pub metadata: ObjectMeta,
    /// Provider configuration.
    pub spec: MaskProviderSpec,
    /// Status subresource, absent until first written.
    pub status: Option<MaskProviderStatus>,
}

/// A `Mask` object as read from the store.
#[derive(Clone, Debug)]
pub struct Mask {
    /// Object metadata.
    pub metadata: ObjectMeta,
    /// Mask configuration.
    pub spec: MaskSpec,
    /// Status subresource, absent until first written.
    pub status: Option<MaskStatus>,
}

/// A `MaskConsumer` object as read from the store.
#[derive(Clone, Debug)]
pub struct MaskConsumer {
    /// Object metadata.
    pub metadata: ObjectMeta,
    /// Consumer configuration.
    pub spec: MaskConsumerSpec,
    /// Status subresource, absent until first written.
    pub status: Option<MaskConsumerStatus>,
}

/// A `MaskReservation` object as read from the store.
#[derive(Clone, Debug)]
pub struct MaskReservation {
    /// Object metadata.
    pub metadata: ObjectMeta,
    /// Reservation back-reference.
    pub spec: MaskReservationSpec,
    /// Status subresource, absent until first written.
    pub status: Option<MaskReservationStatus>,
}

impl MaskStatus {
    /// Stamps the time of this status write.
    pub fn set_last_updated(&mut self, last_updated: String)
        ensures
            *final(self) == (MaskStatus { last_updated: Some(last_updated), ..*old(self) }),
    {
        self.last_updated = Some(last_updated);
    }
}

impl MaskProviderStatus {
    /// Stamps the time of this status write.
    pub fn set_last_updated(&mut self, last_updated: String)
        ensures
            *final(self) == (MaskProviderStatus { last_updated: Some(last_updated), ..*old(self) }),
    {
        self.last_updated = Some(last_updated);
    }
}

impl MaskConsumerStatus {
    /// Stamps the time of this status write.
    pub fn set_last_updated(&mut self, last_updated: String)
        ensures
            *final(self) == (MaskConsumerStatus { last_updated: Some(last_updated), ..*old(self) }),
    {
        self.last_updated = Some(last_updated);
    }
}

impl MaskReservationStatus {
    /// Stamps the time of this status write.
    pub fn set_last_updated(&mut self, last_updated: String)
        ensures
            *final(self) == (MaskReservationStatus { last_updated: Some(last_updated), ..*old(self) }),
    {
        self.last_updated = Some(last_updated);
    }
}

} // verus!
