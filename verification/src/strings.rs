//! Small verified helpers for working with strings.

use vstd::prelude::*;
use vstd::string::StrSliceExecFns;

verus! {

/// Character-by-character string equality, proved equivalent to
/// equality of the two views.
pub fn str_eq_str(a: &str, b: &str) -> (r: bool)
    ensures
        r == (a@ == b@),
{
    let alen = a.unicode_len();
    let blen = b.unicode_len();
    if alen != blen {
        return false;
    }
    let mut i: usize = 0;
    while i < alen
        invariant
            alen == a@.len(),
            blen == b@.len(),
            alen == blen,
            i <= alen,
            forall|j: int| 0 <= j < i ==> a@[j] == b@[j],
        decreases alen - i,
    {
        if a.get_char(i) != b.get_char(i) {
            return false;
        }
        i = i + 1;
    }
    proof {
        assert(a@ =~= b@);
    }
    true
}

/// Whether some element of `v` equals `s`, as string contents.
pub open spec fn spec_contains_string(v: Seq<String>, s: Seq<char>) -> bool {
    exists|i: int| 0 <= i < v.len() && v[i]@ == s
}

/// Linear search for a string among a vector of strings.
pub fn vec_contains_str(v: &Vec<String>, s: &str) -> (r: bool)
    ensures
        r == spec_contains_string(v@, s@),
{
    let n = v.len();
    let mut i: usize = 0;
    while i < n
        invariant
            n == v@.len(),
            i <= n,
            forall|j: int| 0 <= j < i ==> v@[j]@ != s@,
        decreases n - i,
    {
        if str_eq_str(v[i].as_str(), s) {
            return true;
        }
        i = i + 1;
    }
    false
}

/// Whether the two string lists share an element.
pub open spec fn spec_intersects(a: Seq<String>, b: Seq<String>) -> bool {
    exists|i: int, j: int| 0 <= i < a.len() && 0 <= j < b.len() && a[i]@ == b[j]@
}

/// Whether any element of `a` also occurs in `b`.
pub fn vecs_intersect(a: &Vec<String>, b: &Vec<String>) -> (r: bool)
    ensures
        r == spec_intersects(a@, b@),
{
    let n = a.len();
    let mut i: usize = 0;
    while i < n
        invariant
            n == a@.len(),
            i <= n,
            forall|k: int, j: int| 0 <= k < i && 0 <= j < b@.len() ==> a@[k]@ != b@[j]@,
        decreases n - i,
    {
        if vec_contains_str(b, a[i].as_str()) {
            proof {
                let j = choose|j: int| 0 <= j < b@.len() && b@[j]@ == a@[i as int]@;
                assert(a@[i as int]@ == b@[j]@);
            }
            return true;
        }
        i = i + 1;
    }
    false
}

/// Copies a list of strings; the copy's entries read the same.
pub fn clone_string_vec(v: &Vec<String>) -> (r: Vec<String>)
    ensures
        r@.len() == v@.len(),
        forall|i: int| 0 <= i < v@.len() ==> r@[i]@ == v@[i]@,
{
    let n = v.len();
    let mut r: Vec<String> = Vec::new();
    let mut i: usize = 0;
    while i < n
        invariant
            n == v@.len(),
            i <= n,
            r@.len() == i,
            forall|j: int| 0 <= j < i ==> r@[j]@ == v@[j]@,
        decreases n - i,
    {
        r.push(v[i].clone());
        i = i + 1;
    }
    r
}

/// Copies a list of labels; the copy's keys and values read the same.
pub fn clone_label_vec(v: &Vec<(String, String)>) -> (r: Vec<(String, String)>)
    ensures
        r@.len() == v@.len(),
        forall|i: int|
            0 <= i < v@.len() ==> ((#[trigger] r@[i]).0@ == v@[i].0@ && r@[i].1@ == v@[i].1@),
{
    let n = v.len();
    let mut r: Vec<(String, String)> = Vec::new();
    let mut i: usize = 0;
    while i < n
        invariant
            n == v@.len(),
            i <= n,
            r@.len() == i,
            forall|j: int|
                0 <= j < i ==> ((#[trigger] r@[j]).0@ == v@[j].0@ && r@[j].1@ == v@[j].1@),
        decreases n - i,
    {
        let ghost prev = r@;
        let key = v[i].0.clone();
        let value = v[i].1.clone();
        r.push((key, value));
        proof {
            assert(r@.drop_last() =~= prev);
            assert(r@[i as int].0@ == v@[i as int].0@);
            assert(r@[i as int].1@ == v@[i as int].1@);
            assert forall|j: int|
                0 <= j < i + 1 implies ((#[trigger] r@[j]).0@ == v@[j].0@ && r@[j].1@
                == v@[j].1@) by {
                if j < i {
                    assert(r@[j] == prev[j]);
                }
            }
        }
        i = i + 1;
    }
    r
}

/// The entries of `l` that do not read `s`, in order, as their views.
pub open spec fn spec_without_string(l: Seq<String>, s: Seq<char>) -> Seq<Seq<char>>
    decreases l.len(),
{
    if l.len() == 0 {
        Seq::empty()
    } else if l.last()@ == s {
        spec_without_string(l.drop_last(), s)
    } else {
        spec_without_string(l.drop_last(), s).push(l.last()@)
    }
}

/// Copies a list of strings, leaving out every entry that reads `s`;
/// the order of the rest is kept. Used to release exactly the
/// operator's own finalizer token and no other.
pub fn without_string(list: &Vec<String>, s: &str) -> (r: Vec<String>)
    ensures
        r@.len() == spec_without_string(list@, s@).len(),
        forall|i: int|
            0 <= i < r@.len() ==> #[trigger] r@[i]@ == spec_without_string(list@, s@)[i],
{
    let n = list.len();
    let mut r: Vec<String> = Vec::new();
    let mut i: usize = 0;
    while i < n
        invariant
            n == list@.len(),
            i <= n,
            r@.len() == spec_without_string(list@.subrange(0, i as int), s@).len(),
            forall|j: int|
                0 <= j < r@.len() ==> #[trigger] r@[j]@ == spec_without_string(
                    list@.subrange(0, i as int),
                    s@,
                )[j],
        decreases n - i,
    {
        proof {
            let pre = list@.subrange(0, i as int);
            let post = list@.subrange(0, i + 1 as int);
            assert(post.drop_last() =~= pre);
            assert(post.last() == list@[i as int]);
        }
        if !str_eq_str(list[i].as_str(), s) {
            r.push(list[i].clone());
        }
        i = i + 1;
    }
    proof {
        assert(list@.subrange(0, n as int) =~= list@);
    }
    r
}

/// The value stored under `key`, if any; the first match wins.
pub open spec fn spec_label_value(labels: Seq<(String, String)>, key: Seq<char>) -> Option<
    Seq<char>,
>
    decreases labels.len(),
{
    if labels.len() == 0 {
        None
    } else if labels[0].0@ == key {
        Some(labels[0].1@)
    } else {
        spec_label_value(labels.drop_first(), key)
    }
}

/// Looks up a label value by key.
pub fn get_label<'a>(labels: &'a Vec<(String, String)>, key: &str) -> (r: Option<&'a String>)
    ensures
        match r {
            Some(v) => spec_label_value(labels@, key@) == Some(v@),
            None => spec_label_value(labels@, key@) is None,
        },
{
    let n = labels.len();
    proof {
        assert(labels@.subrange(0, n as int) =~= labels@);
    }
    let mut i: usize = 0;
    while i < n
        invariant
            n == labels@.len(),
            i <= n,
            spec_label_value(labels@, key@) == spec_label_value(
                labels@.subrange(i as int, n as int),
                key@,
            ),
        decreases n - i,
    {
        proof {
            assert(labels@.subrange(i as int, n as int).drop_first() =~= labels@.subrange(
                i + 1 as int,
                n as int,
            ));
        }
        if str_eq_str(labels[i].0.as_str(), key) {
            return Some(&labels[i].1);
        }
        i = i + 1;
    }
    proof {
        assert(labels@.subrange(n as int, n as int).len() == 0);
    }
    None
}

} // verus!
