//! JSON values and the deep merge used for pod-template overrides.
//!
//! User-supplied overrides are blended into the controller-built
//! verification pod by a deep merge: objects merge recursively, an
//! explicit `null` deletes the field it is written over, and any other
//! value replaces the old one wholesale. Numbers are carried as their
//! decimal text and treated opaquely.
//!
//! The merge is specified by a ghost derivation: `MergeTrace` records,
//! binding by binding, the intermediate value each recursive merge
//! produced, and `merge_trace_ok` checks a candidate result against
//! the rules along that record. `deep_merge` is proved to return a
//! result some derivation justifies.

use vstd::prelude::*;
use vstd::string::StringExecFns;

use crate::strings::str_eq_str;

verus! {

/// A JSON document, with object fields as an ordered list of bindings.
#[derive(Debug)]
pub enum JsonValue {
    /// The JSON `null`.
    Null,
    /// A boolean.
    Bool(bool),
    /// A number, kept as its decimal text and treated opaquely.
    Num(String),
    /// A string.
    Str(String),
    /// An array.
    Arr(Vec<JsonValue>),
    /// An object: key-value bindings in order.
    Obj(Vec<(String, JsonValue)>),
}

/// The ghost record of one merge: either the right-hand value replaced
/// the old one wholesale, or two objects were merged and each non-null
/// binding of the right-hand object contributed a merged value with
/// its own record.
pub enum MergeTrace {
    /// The right-hand value was not merged field-wise.
    Replace,
    /// Two objects merged: one `(merged value, record)` pair per
    /// non-null binding of the right-hand object, in order.
    Fields(Seq<(JsonValue, MergeTrace)>),
}

/// The first value bound to key `k`, if any.
pub open spec fn spec_lookup(es: Seq<(String, JsonValue)>, k: Seq<char>) -> Option<JsonValue>
    decreases es.len(),
{
    if es.len() == 0 {
        None
    } else if es.first().0@ == k {
        Some(es.first().1)
    } else {
        spec_lookup(es.drop_first(), k)
    }
}

/// The bindings with the first binding of `k` removed.
pub open spec fn spec_remove_key(es: Seq<(String, JsonValue)>, k: Seq<char>) -> Seq<
    (String, JsonValue),
>
    decreases es.len(),
{
    if es.len() == 0 {
        es
    } else if es.first().0@ == k {
        es.drop_first()
    } else {
        seq![es.first()] + spec_remove_key(es.drop_first(), k)
    }
}

/// The value merging starts from for key `k`: the existing binding, or
/// `null` when the key is new.
pub open spec fn spec_prev_value(es: Seq<(String, JsonValue)>, k: Seq<char>) -> JsonValue {
    match spec_lookup(es, k) {
        Some(v) => v,
        None => JsonValue::Null,
    }
}

/// Whether `r` is the deep merge of `b` into `a` along the derivation
/// `t`: two objects merge binding by binding; in every other case `b`
/// replaces `a` wholesale.
pub open spec fn merge_trace_ok(a: JsonValue, b: JsonValue, r: JsonValue, t: MergeTrace) -> bool
    decreases b,
{
    if a is Obj && b is Obj {
        &&& r is Obj
        &&& t is Fields
        &&& entries_trace_ok(a->Obj_0@, b->Obj_0@, r->Obj_0@, t->Fields_0)
    } else {
        r == b
    }
}

/// Whether `res` results from folding the bindings of `bes` into
/// `aes`, left to right, along the given step records: a `null` value
/// deletes its key; any other value is deep-merged over the existing
/// binding (or over `null` for a fresh key) and re-bound at the end,
/// with the merged value and its derivation taken from the next step.
pub open spec fn entries_trace_ok(
    aes: Seq<(String, JsonValue)>,
    bes: Seq<(String, JsonValue)>,
    res: Seq<(String, JsonValue)>,
    steps: Seq<(JsonValue, MergeTrace)>,
) -> bool
    decreases bes,
{
    if bes.len() == 0 {
        res == aes && steps.len() == 0
    } else if bes.first().1 is Null {
        entries_trace_ok(spec_remove_key(aes, bes.first().0@), bes.drop_first(), res, steps)
    } else {
        &&& steps.len() > 0
        &&& merge_trace_ok(
            spec_prev_value(aes, bes.first().0@),
            bes.first().1,
            steps.first().0,
            steps.first().1,
        )
        &&& entries_trace_ok(
            spec_remove_key(aes, bes.first().0@).push((bes.first().0, steps.first().0)),
            bes.drop_first(),
            res,
            steps.drop_first(),
        )
    }
}

/// Whether `r` is the deep merge of `b` into `a`: some derivation
/// justifies it.
pub open spec fn is_deep_merge(a: JsonValue, b: JsonValue, r: JsonValue) -> bool {
    exists|t: MergeTrace| #[trigger] merge_trace_ok(a, b, r, t)
}

/// In every case but object-into-object, the merge is replacement:
/// the result is the right-hand value, whatever the derivation.
pub proof fn lemma_merge_replaces_non_objects(a: JsonValue, b: JsonValue, r: JsonValue)
    requires
        !(a is Obj) || !(b is Obj),
    ensures
        is_deep_merge(a, b, r) <==> r == b,
{
    if r == b {
        assert(merge_trace_ok(a, b, r, MergeTrace::Replace));
    }
}

/// An empty override leaves an object exactly as it was.
pub proof fn lemma_merge_empty_override(a: JsonValue, b: JsonValue)
    requires
        a is Obj,
        b is Obj,
        b->Obj_0@.len() == 0,
    ensures
        is_deep_merge(a, b, a),
{
    assert(merge_trace_ok(a, b, a, MergeTrace::Fields(Seq::empty())));
}

/// Removes the first binding of `k`, returning its value and the rest.
fn take_key(es: Vec<(String, JsonValue)>, k: &str) -> (r: (
    Option<JsonValue>,
    Vec<(String, JsonValue)>,
))
    ensures
        r.1@ == spec_remove_key(es@, k@),
        match r.0 {
            Some(v) => spec_lookup(es@, k@) == Some(v),
            None => spec_lookup(es@, k@) is None,
        },
    decreases es@.len(),
{
    let mut es = es;
    if es.len() == 0 {
        (None, es)
    } else {
        let head = es.remove(0);
        if str_eq_str(head.0.as_str(), k) {
            (Some(head.1), es)
        } else {
            let (found, mut rest) = take_key(es, k);
            let ghost tail = rest@;
            rest.insert(0, head);
            proof {
                assert(rest@ =~= seq![head] + tail);
            }
            (found, rest)
        }
    }
}

/// Deep merge: moves the values of `b` into `a`. Matching object
/// fields merge recursively, a `null` in `b` deletes the field, and
/// every non-object value in `b` replaces whatever `a` held.
pub fn deep_merge(a: JsonValue, b: JsonValue) -> (r: JsonValue)
    ensures
        is_deep_merge(a, b, r),
{
    let (r, Ghost(t)) = deep_merge_traced(a, b);
    proof {
        assert(merge_trace_ok(a, b, r, t));
    }
    r
}

/// The merge together with the ghost derivation that justifies it.
fn deep_merge_traced(a: JsonValue, b: JsonValue) -> (r: (JsonValue, Ghost<MergeTrace>))
    ensures
        merge_trace_ok(a, b, r.0, r.1@),
    decreases b,
{
    match (a, b) {
        (JsonValue::Obj(aes), JsonValue::Obj(bes)) => {
            let (res, Ghost(steps)) = merge_entries(aes, bes);
            (JsonValue::Obj(res), Ghost(MergeTrace::Fields(steps)))
        },
        (_, other) => (other, Ghost(MergeTrace::Replace)),
    }
}

/// Folds the bindings of `bes` into `aes`, left to right, collecting
/// the ghost step records.
fn merge_entries(aes: Vec<(String, JsonValue)>, bes: Vec<(String, JsonValue)>) -> (r: (
    Vec<(String, JsonValue)>,
    Ghost<Seq<(JsonValue, MergeTrace)>>,
))
    ensures
        entries_trace_ok(aes@, bes@, r.0@, r.1@),
    decreases bes@,
{
    let ghost bes0 = bes@;
    let ghost aes0 = aes@;
    let mut bes = bes;
    if bes.len() == 0 {
        return (aes, Ghost(Seq::empty()));
    }
    let (k, v) = bes.remove(0);
    proof {
        assert(bes@ =~= bes0.drop_first());
        assert((k, v) == bes0.first());
    }
    if matches!(v, JsonValue::Null) {
        let (_, pruned) = take_key(aes, k.as_str());
        let (res, Ghost(steps)) = merge_entries(pruned, bes);
        proof {
            assert(entries_trace_ok(aes0, bes0, res@, steps));
        }
        (res, Ghost(steps))
    } else {
        let (prev, pruned) = take_key(aes, k.as_str());
        let pv = match prev {
            Some(x) => x,
            None => JsonValue::Null,
        };
        proof {
            assert(pv == spec_prev_value(aes0, k@));
        }
        let (m, Ghost(mt)) = deep_merge_traced(pv, v);
        let ghost m0 = m;
        let mut next = pruned;
        next.push((k, m));
        proof {
            assert(next@ =~= spec_remove_key(aes0, bes0.first().0@).push((bes0.first().0, m0)));
        }
        let (res, Ghost(rest)) = merge_entries(next, bes);
        let ghost steps = seq![(m0, mt)] + rest;
        proof {
            assert(steps.first() == (m0, mt));
            assert(steps.drop_first() =~= rest);
            assert(entries_trace_ok(aes0, bes0, res@, steps));
        }
        (res, Ghost(steps))
    }
}

} // verus!
