//! Phase enums for the four custom resources, with verified
//! string conversion in both directions.
//!
//! Every status subresource stores its phase as a string; the
//! conversions here are proved to round-trip, so a phase written by one
//! reconciliation is read back unchanged by the next.

use vstd::prelude::*;

use crate::strings::str_eq_str;

verus! {

/// Phase of a `Mask`, the user-facing resource.
#[derive(Clone, Copy, Debug, PartialEq, Eq, Structural)]
pub enum MaskPhase {
    /// The resource first appeared to the controller.
    Pending,
    /// Waiting for an open slot with a suitable provider.
    Waiting,
    /// The credentials are ready to be used.
    Ready,
    /// The credentials are in use.
    Active,
    /// Deletion is pending garbage collection.
    Terminating,
    /// No suitable provider resources were found.
    ErrNoProviders,
}

/// Phase of a `MaskProvider`, the supply side.
#[derive(Clone, Copy, Debug, PartialEq, Eq, Structural)]
pub enum MaskProviderPhase {
    /// The resource first appeared to the controller.
    Pending,
    /// The credentials are being dialed by a probe pod.
    Verifying,
    /// Verification completed; the phase settles to Ready or Active next pass.
    Verified,
    /// Ready to be assigned to consumers.
    Ready,
    /// Assigned to one or more consumers.
    Active,
    /// Deletion is pending garbage collection.
    Terminating,
    /// The referenced credential secret is missing.
    ErrSecretNotFound,
    /// The credentials verification process failed.
    ErrVerifyFailed,
}

/// Phase of a `MaskConsumer`, the internal holder of an assignment.
#[derive(Clone, Copy, Debug, PartialEq, Eq, Structural)]
pub enum MaskConsumerPhase {
    /// The resource first appeared to the controller.
    Pending,
    /// Waiting for an open slot with a suitable provider.
    Waiting,
    /// Consuming the credentials on a reserved slot.
    Active,
    /// Deletion is pending garbage collection.
    Terminating,
    /// No suitable provider resources were found.
    ErrNoProviders,
}

/// Phase of a `MaskReservation`, the per-slot lock object.
#[derive(Clone, Copy, Debug, PartialEq, Eq, Structural)]
pub enum MaskReservationPhase {
    /// The resource first appeared to the controller.
    Pending,
    /// In use by a valid consumer.
    Active,
    /// Deletion is pending the deletion of the paired consumer.
    Terminating,
}

/// The string under which a `MaskPhase` is stored in a status object.
pub open spec fn mask_phase_str(p: MaskPhase) -> Seq<char> {
    match p {
        MaskPhase::Pending => "Pending"@,
        MaskPhase::Waiting => "Waiting"@,
        MaskPhase::Ready => "Ready"@,
        MaskPhase::Active => "Active"@,
        MaskPhase::Terminating => "Terminating"@,
        MaskPhase::ErrNoProviders => "ErrNoProviders"@,
    }
}

/// The `MaskPhase` denoted by a stored string, if any.
pub open spec fn mask_phase_of_str(s: Seq<char>) -> Result<MaskPhase, ()> {
    if s == "Pending"@ {
        Ok(MaskPhase::Pending)
    } else if s == "Waiting"@ {
        Ok(MaskPhase::Waiting)
    } else if s == "Ready"@ {
        Ok(MaskPhase::Ready)
    } else if s == "Active"@ {
        Ok(MaskPhase::Active)
    } else if s == "Terminating"@ {
        Ok(MaskPhase::Terminating)
    } else if s == "ErrNoProviders"@ {
        Ok(MaskPhase::ErrNoProviders)
    } else {
        Err(())
    }
}

impl MaskPhase {
    /// Parses the phase from its stored string form.
    pub fn from_str(s: &str) -> (r: Result<MaskPhase, ()>)
        ensures
            r == mask_phase_of_str(s@),
    {
        if str_eq_str(s, "Pending") {
            Ok(MaskPhase::Pending)
        } else if str_eq_str(s, "Waiting") {
            Ok(MaskPhase::Waiting)
        } else if str_eq_str(s, "Ready") {
            Ok(MaskPhase::Ready)
        } else if str_eq_str(s, "Active") {
            Ok(MaskPhase::Active)
        } else if str_eq_str(s, "Terminating") {
            Ok(MaskPhase::Terminating)
        } else if str_eq_str(s, "ErrNoProviders") {
            Ok(MaskPhase::ErrNoProviders)
        } else {
            Err(())
        }
    }

    /// The stored string form of the phase.
    pub fn to_str(&self) -> (r: &'static str)
        ensures
            r@ == mask_phase_str(*self),
    {
        match self {
            MaskPhase::Pending => "Pending",
            MaskPhase::Waiting => "Waiting",
            MaskPhase::Ready => "Ready",
            MaskPhase::Active => "Active",
            MaskPhase::Terminating => "Terminating",
            MaskPhase::ErrNoProviders => "ErrNoProviders",
        }
    }
}

/// Formatting a `MaskPhase` and parsing the result yields the phase back.
pub proof fn lemma_mask_phase_round_trip(p: MaskPhase)
    ensures
        mask_phase_of_str(mask_phase_str(p)) == Ok::<MaskPhase, ()>(p),
{
    reveal_strlit("Pending");
    reveal_strlit("Waiting");
    reveal_strlit("Ready");
    reveal_strlit("Active");
    reveal_strlit("Terminating");
    reveal_strlit("ErrNoProviders");
    assert("Pending"@.len() == 7 && "Pending"@[0] == 'P');
    assert("Waiting"@.len() == 7 && "Waiting"@[0] == 'W');
    assert("Ready"@.len() == 5);
    assert("Active"@.len() == 6);
    assert("Terminating"@.len() == 11);
    assert("ErrNoProviders"@.len() == 14);
}

/// The string under which a `MaskProviderPhase` is stored in a status object.
pub open spec fn provider_phase_str(p: MaskProviderPhase) -> Seq<char> {
    match p {
        MaskProviderPhase::Pending => "Pending"@,
        MaskProviderPhase::Verifying => "Verifying"@,
        MaskProviderPhase::Verified => "Verified"@,
        MaskProviderPhase::Ready => "Ready"@,
        MaskProviderPhase::Active => "Active"@,
        MaskProviderPhase::Terminating => "Terminating"@,
        MaskProviderPhase::ErrSecretNotFound => "ErrSecretNotFound"@,
        MaskProviderPhase::ErrVerifyFailed => "ErrVerifyFailed"@,
    }
}

/// The `MaskProviderPhase` denoted by a stored string, if any.
pub open spec fn provider_phase_of_str(s: Seq<char>) -> Result<MaskProviderPhase, ()> {
    if s == "Pending"@ {
        Ok(MaskProviderPhase::Pending)
    } else if s == "Verifying"@ {
        Ok(MaskProviderPhase::Verifying)
    } else if s == "Verified"@ {
        Ok(MaskProviderPhase::Verified)
    } else if s == "Ready"@ {
        Ok(MaskProviderPhase::Ready)
    } else if s == "Active"@ {
        Ok(MaskProviderPhase::Active)
    } else if s == "Terminating"@ {
        Ok(MaskProviderPhase::Terminating)
    } else if s == "ErrSecretNotFound"@ {
        Ok(MaskProviderPhase::ErrSecretNotFound)
    } else if s == "ErrVerifyFailed"@ {
        Ok(MaskProviderPhase::ErrVerifyFailed)
    } else {
        Err(())
    }
}

impl MaskProviderPhase {
    /// Parses the phase from its stored string form.
    pub fn from_str(s: &str) -> (r: Result<MaskProviderPhase, ()>)
        ensures
            r == provider_phase_of_str(s@),
    {
        if str_eq_str(s, "Pending") {
            Ok(MaskProviderPhase::Pending)
        } else if str_eq_str(s, "Verifying") {
            Ok(MaskProviderPhase::Verifying)
        } else if str_eq_str(s, "Verified") {
            Ok(MaskProviderPhase::Verified)
        } else if str_eq_str(s, "Ready") {
            Ok(MaskProviderPhase::Ready)
        } else if str_eq_str(s, "Active") {
            Ok(MaskProviderPhase::Active)
        } else if str_eq_str(s, "Terminating") {
            Ok(MaskProviderPhase::Terminating)
        } else if str_eq_str(s, "ErrSecretNotFound") {
            Ok(MaskProviderPhase::ErrSecretNotFound)
        } else if str_eq_str(s, "ErrVerifyFailed") {
            Ok(MaskProviderPhase::ErrVerifyFailed)
        } else {
            Err(())
        }
    }

    /// The stored string form of the phase.
    pub fn to_str(&self) -> (r: &'static str)
        ensures
            r@ == provider_phase_str(*self),
    {
        match self {
            MaskProviderPhase::Pending => "Pending",
            MaskProviderPhase::Verifying => "Verifying",
            MaskProviderPhase::Verified => "Verified",
            MaskProviderPhase::Ready => "Ready",
            MaskProviderPhase::Active => "Active",
            MaskProviderPhase::Terminating => "Terminating",
            MaskProviderPhase::ErrSecretNotFound => "ErrSecretNotFound",
            MaskProviderPhase::ErrVerifyFailed => "ErrVerifyFailed",
        }
    }
}

/// Formatting a `MaskProviderPhase` and parsing the result yields the phase back.
pub proof fn lemma_provider_phase_round_trip(p: MaskProviderPhase)
    ensures
        provider_phase_of_str(provider_phase_str(p)) == Ok::<MaskProviderPhase, ()>(p),
{
    reveal_strlit("Pending");
    reveal_strlit("Verifying");
    reveal_strlit("Verified");
    reveal_strlit("Ready");
    reveal_strlit("Active");
    reveal_strlit("Terminating");
    reveal_strlit("ErrSecretNotFound");
    reveal_strlit("ErrVerifyFailed");
    assert("Pending"@.len() == 7 && "Pending"@[0] == 'P');
    assert("Verifying"@.len() == 9);
    assert("Verified"@.len() == 8);
    assert("Ready"@.len() == 5);
    assert("Active"@.len() == 6);
    assert("Terminating"@.len() == 11);
    assert("ErrSecretNotFound"@.len() == 17);
    assert("ErrVerifyFailed"@.len() == 15);
}

/// The string under which a `MaskConsumerPhase` is stored in a status object.
pub open spec fn consumer_phase_str(p: MaskConsumerPhase) -> Seq<char> {
    match p {
        MaskConsumerPhase::Pending => "Pending"@,
        MaskConsumerPhase::Waiting => "Waiting"@,
        MaskConsumerPhase::Active => "Active"@,
        MaskConsumerPhase::Terminating => "Terminating"@,
        MaskConsumerPhase::ErrNoProviders => "ErrNoProviders"@,
    }
}

/// The `MaskConsumerPhase` denoted by a stored string, if any.
pub open spec fn consumer_phase_of_str(s: Seq<char>) -> Result<MaskConsumerPhase, ()> {
    if s == "Pending"@ {
        Ok(MaskConsumerPhase::Pending)
    } else if s == "Waiting"@ {
        Ok(MaskConsumerPhase::Waiting)
    } else if s == "Active"@ {
        Ok(MaskConsumerPhase::Active)
    } else if s == "Terminating"@ {
        Ok(MaskConsumerPhase::Terminating)
    } else if s == "ErrNoProviders"@ {
        Ok(MaskConsumerPhase::ErrNoProviders)
    } else {
        Err(())
    }
}

impl MaskConsumerPhase {
    /// Parses the phase from its stored string form.
    pub fn from_str(s: &str) -> (r: Result<MaskConsumerPhase, ()>)
        ensures
            r == consumer_phase_of_str(s@),
    {
        if str_eq_str(s, "Pending") {
            Ok(MaskConsumerPhase::Pending)
        } else if str_eq_str(s, "Waiting") {
            Ok(MaskConsumerPhase::Waiting)
        } else if str_eq_str(s, "Active") {
            Ok(MaskConsumerPhase::Active)
        } else if str_eq_str(s, "Terminating") {
            Ok(MaskConsumerPhase::Terminating)
        } else if str_eq_str(s, "ErrNoProviders") {
            Ok(MaskConsumerPhase::ErrNoProviders)
        } else {
            Err(())
        }
    }

    /// The stored string form of the phase.
    pub fn to_str(&self) -> (r: &'static str)
        ensures
            r@ == consumer_phase_str(*self),
    {
        match self {
            MaskConsumerPhase::Pending => "Pending",
            MaskConsumerPhase::Waiting => "Waiting",
            MaskConsumerPhase::Active => "Active",
            MaskConsumerPhase::Terminating => "Terminating",
            MaskConsumerPhase::ErrNoProviders => "ErrNoProviders",
        }
    }
}

/// Formatting a `MaskConsumerPhase` and parsing the result yields the phase back.
pub proof fn lemma_consumer_phase_round_trip(p: MaskConsumerPhase)
    ensures
        consumer_phase_of_str(consumer_phase_str(p)) == Ok::<MaskConsumerPhase, ()>(p),
{
    reveal_strlit("Pending");
    reveal_strlit("Waiting");
    reveal_strlit("Active");
    reveal_strlit("Terminating");
    reveal_strlit("ErrNoProviders");
    assert("Pending"@.len() == 7 && "Pending"@[0] == 'P');
    assert("Waiting"@.len() == 7 && "Waiting"@[0] == 'W');
    assert("Active"@.len() == 6);
    assert("Terminating"@.len() == 11);
    assert("ErrNoProviders"@.len() == 14);
}

/// The string under which a `MaskReservationPhase` is stored in a status object.
pub open spec fn reservation_phase_str(p: MaskReservationPhase) -> Seq<char> {
    match p {
        MaskReservationPhase::Pending => "Pending"@,
        MaskReservationPhase::Active => "Active"@,
        MaskReservationPhase::Terminating => "Terminating"@,
    }
}

/// The `MaskReservationPhase` denoted by a stored string, if any.
pub open spec fn reservation_phase_of_str(s: Seq<char>) -> Result<MaskReservationPhase, ()> {
    if s == "Pending"@ {
        Ok(MaskReservationPhase::Pending)
    } else if s == "Active"@ {
        Ok(MaskReservationPhase::Active)
    } else if s == "Terminating"@ {
        Ok(MaskReservationPhase::Terminating)
    } else {
        Err(())
    }
}

impl MaskReservationPhase {
    /// Parses the phase from its stored string form.
    pub fn from_str(s: &str) -> (r: Result<MaskReservationPhase, ()>)
        ensures
            r == reservation_phase_of_str(s@),
    {
        if str_eq_str(s, "Pending") {
            Ok(MaskReservationPhase::Pending)
        } else if str_eq_str(s, "Active") {
            Ok(MaskReservationPhase::Active)
        } else if str_eq_str(s, "Terminating") {
            Ok(MaskReservationPhase::Terminating)
        } else {
            Err(())
        }
    }

    /// The stored string form of the phase.
    pub fn to_str(&self) -> (r: &'static str)
        ensures
            r@ == reservation_phase_str(*self),
    {
        match self {
            MaskReservationPhase::Pending => "Pending",
            MaskReservationPhase::Active => "Active",
            MaskReservationPhase::Terminating => "Terminating",
        }
    }
}

/// Formatting a `MaskReservationPhase` and parsing the result yields the phase back.
pub proof fn lemma_reservation_phase_round_trip(p: MaskReservationPhase)
    ensures
        reservation_phase_of_str(reservation_phase_str(p)) == Ok::<MaskReservationPhase, ()>(p),
{
    reveal_strlit("Pending");
    reveal_strlit("Active");
    reveal_strlit("Terminating");
    assert("Pending"@.len() == 7);
    assert("Active"@.len() == 6);
    assert("Terminating"@.len() == 11);
}

} // verus!
