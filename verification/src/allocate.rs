//! The slot-allocation protocol, shared by the consumer reconciler and
//! the verification path.
//!
//! A consumer scans eligible providers, derives the free slot indices of
//! each provider from the reservations it owns, and tries to create the
//! deterministically named reservation for each free index in turn. The
//! store's name uniqueness makes each create a compare-and-swap: a
//! conflict means the slot was taken concurrently and the scan moves on.
//! Everything here is the deciding half of that protocol; the caller
//! performs the creates and feeds back their outcomes.

use vstd::prelude::*;

use crate::crd::{MaskConsumer, MaskProvider, MaskReservation, ObjectMeta};
use crate::phases::MaskProviderPhase;
use crate::slot::valid_slot_of_name;
use crate::strings::{
    spec_contains_string, spec_intersects, str_eq_str, vec_contains_str, vecs_intersect,
};

verus! {

/// The view of an optional tag filter.
pub open spec fn spec_opt_tags(filter: Option<&Vec<String>>) -> Option<Seq<String>> {
    match filter {
        Some(v) => Some(v@),
        None => None,
    }
}

/// Whether `meta` lists `uid` among its owners.
pub open spec fn spec_owned_by(meta: ObjectMeta, uid: Seq<char>) -> bool {
    spec_contains_string(meta.owner_uids@, uid)
}

/// Decides whether the object with metadata `meta` is owned by `uid`.
pub fn owned_by(meta: &ObjectMeta, uid: &str) -> (r: bool)
    ensures
        r == spec_owned_by(*meta, uid@),
{
    vec_contains_str(&meta.owner_uids, uid)
}

/// Whether the provider admits consumers from `ns`: its namespace
/// allowlist is absent or contains `ns`.
pub open spec fn spec_namespace_allowed(p: MaskProvider, ns: Seq<char>) -> bool {
    match p.spec.namespaces {
        None => true,
        Some(list) => spec_contains_string(list@, ns),
    }
}

/// Whether the provider's tags satisfy the consumer's filter: no filter
/// matches everything; otherwise some provider tag must occur in it.
pub open spec fn spec_tags_match(p: MaskProvider, filter: Option<Seq<String>>) -> bool {
    match filter {
        None => true,
        Some(wanted) => match p.spec.tags {
            None => false,
            Some(tags) => spec_intersects(tags@, wanted),
        },
    }
}

/// Whether the provider's published phase permits assignment.
pub open spec fn spec_phase_assignable(p: MaskProvider) -> bool {
    match p.status {
        Some(s) => s.phase == Some(MaskProviderPhase::Ready) || s.phase == Some(
            MaskProviderPhase::Active,
        ),
        None => false,
    }
}

/// Provider eligibility for ordinary assignment: not being deleted,
/// phase Ready or Active, namespace admitted, tags matching.
pub open spec fn spec_provider_eligible(
    p: MaskProvider,
    ns: Seq<char>,
    filter: Option<Seq<String>>,
) -> bool {
    &&& p.metadata.deletion_timestamp is None
    &&& spec_namespace_allowed(p, ns)
    &&& spec_phase_assignable(p)
    &&& spec_tags_match(p, filter)
}

/// Decides eligibility of one provider for a consumer in `mask_namespace`
/// with the given tag filter.
pub fn provider_eligible(
    p: &MaskProvider,
    mask_namespace: &str,
    filter_tags: Option<&Vec<String>>,
) -> (r: bool)
    ensures
        r == spec_provider_eligible(*p, mask_namespace@, spec_opt_tags(filter_tags)),
{
    if p.metadata.deletion_timestamp.is_some() {
        return false;
    }
    let ns_ok = match &p.spec.namespaces {
        None => true,
        Some(list) => vec_contains_str(list, mask_namespace),
    };
    if !ns_ok {
        return false;
    }
    let phase_ok = match &p.status {
        Some(s) => match s.phase {
            Some(MaskProviderPhase::Ready) => true,
            Some(MaskProviderPhase::Active) => true,
            _ => false,
        },
        None => false,
    };
    if !phase_ok {
        return false;
    }
    match filter_tags {
        None => true,
        Some(wanted) => match &p.spec.tags {
            None => false,
            Some(tags) => vecs_intersect(tags, wanted),
        },
    }
}

/// Selects, in order, the providers eligible for a consumer: those not
/// being deleted, Ready or Active, admitting the consumer's namespace
/// and matching its tags. `ErrNoProviders` is raised exactly when this
/// comes back empty.
pub fn list_active_providers(
    providers: Vec<MaskProvider>,
    filter_tags: Option<&Vec<String>>,
    mask_namespace: &str,
) -> (r: Vec<MaskProvider>)
    ensures
        forall|k: int|
            0 <= k < r@.len() ==> spec_provider_eligible(
                #[trigger] r@[k],
                mask_namespace@,
                spec_opt_tags(filter_tags),
            ),
        forall|k: int| 0 <= k < r@.len() ==> providers@.contains(#[trigger] r@[k]),
        forall|i: int|
            0 <= i < providers@.len() && spec_provider_eligible(
                #[trigger] providers@[i],
                mask_namespace@,
                spec_opt_tags(filter_tags),
            ) ==> r@.contains(providers@[i]),
{
    let ghost input = providers@;
    let mut rest = providers;
    let mut r: Vec<MaskProvider> = Vec::new();
    let ghost mut done: int = 0;
    while rest.len() > 0
        invariant
            0 <= done <= input.len(),
            rest@ == input.subrange(done, input.len() as int),
            forall|k: int|
                0 <= k < r@.len() ==> spec_provider_eligible(
                    #[trigger] r@[k],
                    mask_namespace@,
                    spec_opt_tags(filter_tags),
                ),
            forall|k: int| 0 <= k < r@.len() ==> input.contains(#[trigger] r@[k]),
            forall|j: int|
                0 <= j < done && spec_provider_eligible(
                    #[trigger] input[j],
                    mask_namespace@,
                    spec_opt_tags(filter_tags),
                ) ==> r@.contains(input[j]),
        decreases rest@.len(),
    {
        proof {
            assert(rest@[0] == input[done]);
        }
        let p = rest.remove(0);
        let ghost prev = r@;
        if provider_eligible(&p, mask_namespace, filter_tags) {
            r.push(p);
            proof {
                assert(r@[r@.len() - 1] == input[done]);
                assert(input.contains(input[done]));
            }
        }
        proof {
            assert forall|j: int|
                0 <= j < done + 1 && spec_provider_eligible(
                    #[trigger] input[j],
                    mask_namespace@,
                    spec_opt_tags(filter_tags),
                ) implies r@.contains(input[j]) by {
                if j < done {
                    let k = choose|k: int| 0 <= k < prev.len() && prev[k] == input[j];
                    assert(r@.len() >= prev.len());
                    assert(r@[k] == input[j]);
                } else {
                    assert(r@[r@.len() - 1] == input[done]);
                }
            }
            assert(rest@ =~= input.subrange(done + 1, input.len() as int));
            done = done + 1;
        }
    }
    proof {
        assert(done == input.len());
    }
    r
}

/// Whether the provider's published slot count leaves room. The count
/// is advisory — status may be stale — so this only steers the first
/// pass away from providers that look full; a miss is recovered by the
/// retry pass.
pub open spec fn spec_under_capacity(p: MaskProvider) -> bool {
    match p.status {
        None => true,
        Some(s) => match s.active_slots {
            None => true,
            Some(a) => a < p.spec.max_slots,
        },
    }
}

/// Drops the providers whose published `activeSlots` has reached
/// `maxSlots`, keeping the order of the rest.
pub fn filter_under_capacity(providers: Vec<MaskProvider>) -> (r: Vec<MaskProvider>)
    ensures
        forall|k: int| 0 <= k < r@.len() ==> spec_under_capacity(#[trigger] r@[k]),
        forall|k: int| 0 <= k < r@.len() ==> providers@.contains(#[trigger] r@[k]),
        forall|i: int|
            0 <= i < providers@.len() && spec_under_capacity(#[trigger] providers@[i])
                ==> r@.contains(providers@[i]),
{
    let ghost input = providers@;
    let mut rest = providers;
    let mut r: Vec<MaskProvider> = Vec::new();
    let ghost mut done: int = 0;
    while rest.len() > 0
        invariant
            0 <= done <= input.len(),
            rest@ == input.subrange(done, input.len() as int),
            forall|k: int| 0 <= k < r@.len() ==> spec_under_capacity(#[trigger] r@[k]),
            forall|k: int| 0 <= k < r@.len() ==> input.contains(#[trigger] r@[k]),
            forall|j: int|
                0 <= j < done && spec_under_capacity(#[trigger] input[j]) ==> r@.contains(
                    input[j],
                ),
        decreases rest@.len(),
    {
        proof {
            assert(rest@[0] == input[done]);
        }
        let p = rest.remove(0);
        let ghost prev = r@;
        let keep = match &p.status {
            None => true,
            Some(s) => match s.active_slots {
                None => true,
                Some(a) => a < p.spec.max_slots,
            },
        };
        if keep {
            r.push(p);
            proof {
                assert(r@[r@.len() - 1] == input[done]);
                assert(input.contains(input[done]));
            }
        }
        proof {
            assert forall|j: int|
                0 <= j < done + 1 && spec_under_capacity(#[trigger] input[j]) implies r@.contains(
                input[j],
            ) by {
                if j < done {
                    let k = choose|k: int| 0 <= k < prev.len() && prev[k] == input[j];
                    assert(r@[k] == input[j]);
                } else {
                    assert(r@[r@.len() - 1] == input[done]);
                }
            }
            assert(rest@ =~= input.subrange(done + 1, input.len() as int));
            done = done + 1;
        }
    }
    r
}

/// Whether some reservation in `rs` that is owned by `uid` locks slot `s`.
pub open spec fn spec_occupied(rs: Seq<MaskReservation>, uid: Seq<char>, s: int) -> bool {
    exists|i: int|
        0 <= i < rs.len() && spec_owned_by(#[trigger] rs[i].metadata, uid) && valid_slot_of_name(
            rs[i].metadata.name@,
        ) == Some(s)
}

/// Like `spec_occupied`, over the first `n` reservations only.
pub open spec fn spec_occupied_upto(
    rs: Seq<MaskReservation>,
    uid: Seq<char>,
    s: int,
    n: int,
) -> bool {
    exists|i: int|
        0 <= i < n && i < rs.len() && spec_owned_by(#[trigger] rs[i].metadata, uid)
            && valid_slot_of_name(rs[i].metadata.name@) == Some(s)
}

/// Derives the occupied slot indices of a provider from the
/// reservations in its namespace: those owned by the provider's uid
/// (ownership is matched by uid, not name, to survive delete-recreate
/// races) whose name suffix parses as a slot index. Unparsable
/// suffixes are ignored.
pub fn list_active_slots(reservations: &Vec<MaskReservation>, provider_uid: &str) -> (r: Vec<
    usize,
>)
    ensures
        forall|s: usize| #[trigger]
            r@.contains(s) <==> spec_occupied(reservations@, provider_uid@, s as int),
{
    let n = reservations.len();
    let mut r: Vec<usize> = Vec::new();
    let mut i: usize = 0;
    while i < n
        invariant
            n == reservations@.len(),
            i <= n,
            forall|s: usize| #[trigger]
                r@.contains(s) <==> spec_occupied_upto(
                    reservations@,
                    provider_uid@,
                    s as int,
                    i as int,
                ),
        decreases n - i,
    {
        let ghost prev = r@;
        if owned_by(&reservations[i].metadata, provider_uid) {
            match crate::slot::parse_slot(reservations[i].metadata.name.as_str()) {
                Some(s) => {
                    r.push(s);
                    proof {
                        assert(r@[r@.len() - 1] == s);
                        assert(r@.drop_last() =~= prev);
                    }
                },
                None => {
                },
            }
        }
        proof {
            let rs = reservations@;
            let uid = provider_uid@;
            assert forall|s: usize| #[trigger]
                r@.contains(s) implies spec_occupied_upto(rs, uid, s as int, i + 1) by {
                let k = choose|k: int| 0 <= k < r@.len() && r@[k] == s;
                if k < prev.len() {
                    assert(prev[k] == s);
                    assert(prev.contains(s));
                } else {
                    assert(spec_owned_by(rs[i as int].metadata, uid));
                }
            }
            assert forall|s: usize| spec_occupied_upto(rs, uid, s as int, i + 1) implies #[trigger]
                r@.contains(s) by {
                let j = choose|j: int|
                    0 <= j < i + 1 && j < rs.len() && spec_owned_by(#[trigger] rs[j].metadata, uid)
                        && valid_slot_of_name(rs[j].metadata.name@) == Some(s as int);
                if j < i {
                    assert(spec_occupied_upto(rs, uid, s as int, i as int));
                    assert(prev.contains(s));
                    let k = choose|k: int| 0 <= k < prev.len() && prev[k] == s;
                    assert(r@[k] == s);
                } else {
                    assert(r@[r@.len() - 1] == s);
                }
            }
        }
        i = i + 1;
    }
    r
}

/// Whether `v` contains `s`.
pub fn contains_slot(v: &Vec<usize>, s: usize) -> (r: bool)
    ensures
        r == v@.contains(s),
{
    let n = v.len();
    let mut i: usize = 0;
    while i < n
        invariant
            n == v@.len(),
            i <= n,
            forall|j: int| 0 <= j < i ==> v@[j] != s,
        decreases n - i,
    {
        if v[i] == s {
            return true;
        }
        i = i + 1;
    }
    false
}

/// Lists, in ascending order, the free slot indices of a provider with
/// capacity `max_slots`, given its occupied indices: exactly the
/// indices below the capacity that are not occupied. Slot acquisition
/// attempts the creates in this order, so assignment is first-fit.
pub fn list_inactive_slots(max_slots: usize, active_slots: &Vec<usize>) -> (r: Vec<usize>)
    ensures
        forall|k: int| 0 <= k < r@.len() ==> #[trigger] r@[k] < max_slots,
        forall|k: int| 0 <= k < r@.len() ==> !active_slots@.contains(#[trigger] r@[k]),
        forall|s: usize| s < max_slots && !active_slots@.contains(s) ==> #[trigger] r@.contains(s),
        forall|k1: int, k2: int| 0 <= k1 < k2 < r@.len() ==> r@[k1] < r@[k2],
{
    let mut r: Vec<usize> = Vec::new();
    let mut s: usize = 0;
    while s < max_slots
        invariant
            s <= max_slots,
            forall|k: int| 0 <= k < r@.len() ==> #[trigger] r@[k] < s,
            forall|k: int| 0 <= k < r@.len() ==> !active_slots@.contains(#[trigger] r@[k]),
            forall|t: usize| t < s && !active_slots@.contains(t) ==> #[trigger] r@.contains(t),
            forall|k1: int, k2: int| 0 <= k1 < k2 < r@.len() ==> r@[k1] < r@[k2],
        decreases max_slots - s,
    {
        let ghost prev = r@;
        if !contains_slot(active_slots, s) {
            r.push(s);
            proof {
                assert(r@[r@.len() - 1] == s);
                assert(r@.drop_last() =~= prev);
            }
        }
        proof {
            assert forall|t: usize| t < s + 1 && !active_slots@.contains(t) implies #[trigger]
                r@.contains(t) by {
                if t < s {
                    assert(prev.contains(t));
                    let k = choose|k: int| 0 <= k < prev.len() && prev[k] == t;
                    assert(r@[k] == t);
                } else {
                    assert(r@[r@.len() - 1] == s);
                }
            }
        }
        s = s + 1;
    }
    r
}

/// Whether the consumer's recorded assignment says it is using slot
/// `slot` of the given provider. A consumer without a status or without
/// an assignment is not using any slot.
pub open spec fn spec_consumer_uses_reservation(
    c: MaskConsumer,
    provider: MaskProvider,
    slot: usize,
) -> bool {
    match c.status {
        Some(st) => match st.provider {
            Some(a) => {
                &&& a.name@ == provider.metadata.name@
                &&& a.namespace@ == provider.metadata.namespace@
                &&& a.slot == slot
            },
            None => false,
        },
        None => false,
    }
}

/// Decides whether the consumer is assigned the given provider and is
/// reserving the slot with the given index.
pub fn consumer_uses_reservation(c: &MaskConsumer, provider: &MaskProvider, slot: usize) -> (r:
    bool)
    ensures
        r == spec_consumer_uses_reservation(*c, *provider, slot),
{
    match &c.status {
        Some(st) => match &st.provider {
            Some(a) => str_eq_str(a.name.as_str(), provider.metadata.name.as_str()) && str_eq_str(
                a.namespace.as_str(),
                provider.metadata.namespace.as_str(),
            ) && a.slot == slot,
            None => false,
        },
        None => false,
    }
}

/// What pruning found out about the consumer a reservation points at.
pub enum ConsumerLookup<'a> {
    /// No consumer of that name exists.
    Missing,
    /// The named consumer exists; whether it backs the reservation is
    /// decided from its uid and recorded assignment.
    Found(&'a MaskConsumer),
}

/// Whether a reservation of `provider`'s slot `slot` is garbage, given
/// the reservation as fetched by its deterministic name and the lookup
/// of the consumer its spec points at. A reservation is garbage exactly
/// when it belongs to the provider and its paired consumer is gone, has
/// a different uid, or no longer records this slot. A reservation owned
/// by someone else — a leftover of a deleted, recreated provider — is
/// never touched here; the owner cascade collects it.
pub open spec fn spec_reservation_is_garbage(
    provider: MaskProvider,
    slot: usize,
    reservation: Option<MaskReservation>,
    consumer: Option<MaskConsumer>,
) -> bool {
    match reservation {
        None => false,
        Some(res) => {
            &&& spec_owned_by(res.metadata, provider.metadata.uid@)
            &&& match consumer {
                None => true,
                Some(c) => c.metadata.uid@ != res.spec.uid@ || !spec_consumer_uses_reservation(
                    c,
                    provider,
                    slot,
                ),
            }
        },
    }
}

/// Decides whether the reservation for `provider`'s slot `slot` needs to
/// be garbage-collected. Under normal operation this returns false:
/// finalizers delete consumers before their reservations. Recreation
/// races and controller restarts can leak reservations, and this check
/// is what reclaims them.
pub fn check_prune(
    provider: &MaskProvider,
    slot: usize,
    reservation: Option<&MaskReservation>,
    consumer: ConsumerLookup<'_>,
) -> (r: bool)
    ensures
        r == spec_reservation_is_garbage(
            *provider,
            slot,
            match reservation {
                Some(m) => Some(*m),
                None => None,
            },
            match consumer {
                ConsumerLookup::Found(c) => Some(*c),
                ConsumerLookup::Missing => None,
            },
        ),
{
    let res = match reservation {
        None => {
            return false;
        },
        Some(res) => res,
    };
    if !owned_by(&res.metadata, provider.metadata.uid.as_str()) {
        return false;
    }
    match consumer {
        ConsumerLookup::Missing => true,
        ConsumerLookup::Found(c) => {
            !str_eq_str(c.metadata.uid.as_str(), res.spec.uid.as_str())
                || !consumer_uses_reservation(c, provider, slot)
        },
    }
}

/// Builds the reservation object whose create is the compare-and-swap
/// on slot `slot` of `provider`: deterministically named, placed in the
/// provider's namespace, owned by the provider's uid, and carrying the
/// consumer's cross-namespace back-reference.
pub fn new_reservation(
    provider: &MaskProvider,
    slot: usize,
    consumer_name: &str,
    consumer_namespace: &str,
    consumer_uid: &str,
) -> (r: MaskReservation)
    ensures
        r.metadata.name@ == crate::slot::spec_reservation_name(
            provider.metadata.name@,
            slot as nat,
        ),
        r.metadata.namespace@ == provider.metadata.namespace@,
        spec_owned_by(r.metadata, provider.metadata.uid@),
        r.spec.name@ == consumer_name@,
        r.spec.namespace@ == consumer_namespace@,
        r.spec.uid@ == consumer_uid@,
        r.status is None,
{
    let mut owner_uids: Vec<String> = Vec::new();
    owner_uids.push(provider.metadata.uid.clone());
    let r = MaskReservation {
        metadata: crate::crd::ObjectMeta {
            name: crate::slot::reservation_name(provider.metadata.name.as_str(), slot),
            namespace: provider.metadata.namespace.clone(),
            uid: String::new(),
            deletion_timestamp: None,
            finalizers: Vec::new(),
            labels: Vec::new(),
            owner_uids,
            creation_timestamp: None,
        },
        spec: crate::crd::MaskReservationSpec {
            name: String::from_str(consumer_name),
            namespace: String::from_str(consumer_namespace),
            uid: String::from_str(consumer_uid),
        },
        status: None,
    };
    proof {
        assert(r.metadata.owner_uids@[0]@ == provider.metadata.uid@);
    }
    r
}

/// Picks the provider with the given uid out of a listing, used by the
/// verification path, which must reserve a slot of one exact provider
/// incarnation and skips every eligibility filter.
pub fn select_provider_by_uid(providers: Vec<MaskProvider>, uid: &str) -> (r: Option<
    MaskProvider,
>)
    ensures
        match r {
            Some(p) => p.metadata.uid@ == uid@ && providers@.contains(p),
            None => forall|i: int|
                0 <= i < providers@.len() ==> (#[trigger] providers@[i]).metadata.uid@ != uid@,
        },
{
    let ghost input = providers@;
    let mut rest = providers;
    let ghost mut done: int = 0;
    while rest.len() > 0
        invariant
            input == providers@,
            0 <= done <= input.len(),
            rest@ == input.subrange(done, input.len() as int),
            forall|j: int| 0 <= j < done ==> (#[trigger] input[j]).metadata.uid@ != uid@,
        decreases rest@.len(),
    {
        proof {
            assert(rest@[0] == input[done]);
        }
        let p = rest.remove(0);
        proof {
            assert(p == input[done]);
        }
        if str_eq_str(p.metadata.uid.as_str(), uid) {
            proof {
                assert(input.contains(input[done]));
            }
            return Some(p);
        }
        proof {
            assert(rest@ =~= input.subrange(done + 1, input.len() as int));
            done = done + 1;
        }
    }
    None
}

/// The consumer phase reported when the allocation protocol found
/// nothing: `ErrNoProviders` exactly when no provider was eligible
/// before any attempt; plain `Waiting` when eligible providers exist
/// but every slot acquisition failed. A consumer never fails outright
/// for capacity exhaustion.
pub fn assignment_failure_phase(eligible_was_empty: bool) -> (r: crate::phases::MaskConsumerPhase)
    ensures
        r == (if eligible_was_empty {
            crate::phases::MaskConsumerPhase::ErrNoProviders
        } else {
            crate::phases::MaskConsumerPhase::Waiting
        }),
{
    if eligible_was_empty {
        crate::phases::MaskConsumerPhase::ErrNoProviders
    } else {
        crate::phases::MaskConsumerPhase::Waiting
    }
}

/// Whether the second allocation pass runs: only when pruning removed
/// a dangling reservation or when the advisory capacity filter had
/// excluded providers during the first pass, which a re-listing shows
/// as a different provider count.
pub fn should_retry_after_prune(
    pruned: bool,
    first_pass_count: usize,
    relisted_count: usize,
) -> (r: bool)
    ensures
        r == (pruned || first_pass_count != relisted_count),
{
    pruned || first_pass_count != relisted_count
}

/// Delete-recreate safety: a provider recreated under an old name gets
/// a fresh uid, and reservations are matched to their provider by
/// owner uid alone — so when no reservation is owned by the new uid,
/// no slot whatsoever reads as occupied and the new provider starts
/// with its full capacity free. Leftovers of the old incarnation hold
/// no slot of the new one.
pub proof fn lemma_delete_recreate_safety(rs: Seq<MaskReservation>, new_uid: Seq<char>)
    requires
        forall|i: int| 0 <= i < rs.len() ==> !spec_owned_by((#[trigger] rs[i]).metadata, new_uid),
    ensures
        forall|s: int| !spec_occupied(rs, new_uid, s),
{
    assert forall|s: int| !spec_occupied(rs, new_uid, s) by {
        if spec_occupied(rs, new_uid, s) {
            let i = choose|i: int|
                0 <= i < rs.len() && spec_owned_by(#[trigger] rs[i].metadata, new_uid)
                    && crate::slot::valid_slot_of_name(rs[i].metadata.name@) == Some(s);
            assert(!spec_owned_by(rs[i].metadata, new_uid));
        }
    }
}

/// The capacity invariant over stored reservations: when every
/// reservation of a provider carries the deterministic name of a slot
/// below the capacity — the only shape `new_reservation` ever creates,
/// its slot drawn from `list_inactive_slots` — and the names are
/// pairwise distinct, as the store's per-namespace name uniqueness
/// enforces, the reservations number at most `max_slots`.
pub proof fn lemma_owned_reservations_bounded(
    rs: Seq<MaskReservation>,
    slots: Seq<int>,
    provider_name: Seq<char>,
    max_slots: int,
)
    requires
        max_slots >= 0,
        rs.len() == slots.len(),
        forall|i: int|
            0 <= i < rs.len() ==> (#[trigger] rs[i]).metadata.name@
                == crate::slot::spec_reservation_name(provider_name, slots[i] as nat),
        forall|i: int, j: int|
            0 <= i < j < rs.len() ==> rs[i].metadata.name@ != rs[j].metadata.name@,
        forall|i: int| 0 <= i < slots.len() ==> 0 <= #[trigger] slots[i] < max_slots,
    ensures
        rs.len() <= max_slots,
{
    let names = Seq::new(rs.len() as nat, |i: int| rs[i].metadata.name@);
    assert forall|i: int, j: int| 0 <= i < j < names.len() implies names[i] != names[j] by {
        assert(rs[i].metadata.name@ != rs[j].metadata.name@);
    }
    crate::slot::lemma_provider_capacity_bound(names, slots, provider_name, max_slots);
}

} // verus!
