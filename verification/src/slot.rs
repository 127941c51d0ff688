//! Deterministic reservation naming and slot arithmetic.
//!
//! A provider with `max_slots = N` owns slots `0, ..., N-1`. The slot `i`
//! of provider `p` is embodied by a reservation object named `p-i` in the
//! provider's namespace; the object store's name uniqueness per namespace
//! is what makes creating that object a compare-and-swap on the slot.
//!
//! Formatting a slot index into a name and parsing it back are proved to
//! round-trip, and a set of distinctly named reservations whose indices
//! all lie below the capacity is proved to be no larger than the capacity.

use vstd::prelude::*;
use vstd::seq_lib::*;
use vstd::set_lib::*;
use vstd::string::StrSliceExecFns;
use vstd::string::StringExecFns;

verus! {

/// The decimal digit character for `d` (meaningful for `0 <= d <= 9`).
pub open spec fn digit_char(d: int) -> char {
    if d == 0 {
        '0'
    } else if d == 1 {
        '1'
    } else if d == 2 {
        '2'
    } else if d == 3 {
        '3'
    } else if d == 4 {
        '4'
    } else if d == 5 {
        '5'
    } else if d == 6 {
        '6'
    } else if d == 7 {
        '7'
    } else if d == 8 {
        '8'
    } else {
        '9'
    }
}

/// Whether `c` is a decimal digit.
pub open spec fn is_digit(c: char) -> bool {
    c == '0' || c == '1' || c == '2' || c == '3' || c == '4' || c == '5' || c == '6' || c == '7'
        || c == '8' || c == '9'
}

/// The value of a digit character; 0 for non-digits.
pub open spec fn digit_val(c: char) -> int {
    if c == '0' {
        0
    } else if c == '1' {
        1
    } else if c == '2' {
        2
    } else if c == '3' {
        3
    } else if c == '4' {
        4
    } else if c == '5' {
        5
    } else if c == '6' {
        6
    } else if c == '7' {
        7
    } else if c == '8' {
        8
    } else if c == '9' {
        9
    } else {
        0
    }
}

/// The canonical decimal numeral of `n`, without leading zeros.
pub open spec fn dec_digits(n: nat) -> Seq<char>
    decreases n,
{
    if n < 10 {
        seq![digit_char(n as int)]
    } else {
        dec_digits(n / 10).push(digit_char((n % 10) as int))
    }
}

/// Whether every character of `s` is a decimal digit.
pub open spec fn all_digits(s: Seq<char>) -> bool {
    forall|i: int| 0 <= i < s.len() ==> is_digit(#[trigger] s[i])
}

/// The value of `s` read as a decimal numeral (0 when empty).
pub open spec fn dec_value(s: Seq<char>) -> int
    decreases s.len(),
{
    if s.len() == 0 {
        0
    } else {
        dec_value(s.drop_last()) * 10 + digit_val(s.last())
    }
}

/// The number denoted by `s`, if `s` is a non-empty string of digits.
/// Leading zeros are accepted, as the underlying parser accepts them.
pub open spec fn spec_parse_dec(s: Seq<char>) -> Option<int> {
    if s.len() > 0 && all_digits(s) {
        Some(dec_value(s))
    } else {
        None
    }
}

/// The value of a digit string is never negative.
pub proof fn lemma_dec_value_nonneg(s: Seq<char>)
    ensures
        dec_value(s) >= 0,
    decreases s.len(),
{
    if s.len() > 0 {
        lemma_dec_value_nonneg(s.drop_last());
    }
}

/// The canonical numeral consists of digits only and is non-empty.
pub proof fn lemma_dec_digits_wf(n: nat)
    ensures
        dec_digits(n).len() >= 1,
        all_digits(dec_digits(n)),
    decreases n,
{
    if n >= 10 {
        lemma_dec_digits_wf(n / 10);
    }
}

/// A digit is not a dash, so canonical numerals are dash-free.
pub proof fn lemma_dec_digits_dash_free(n: nat)
    ensures
        forall|i: int| 0 <= i < dec_digits(n).len() ==> dec_digits(n)[i] != '-',
{
    lemma_dec_digits_wf(n);
}

/// Parsing the canonical numeral of `n` yields `n` back.
pub proof fn lemma_dec_digits_value(n: nat)
    ensures
        dec_value(dec_digits(n)) == n,
    decreases n,
{
    if n < 10 {
        let s = dec_digits(n);
        assert(s =~= seq![digit_char(n as int)]);
        assert(s.len() == 1);
        assert(s.last() == digit_char(n as int));
        assert(dec_value(s.drop_last()) == 0) by {
            assert(s.drop_last().len() == 0);
        }
        assert(dec_value(s) == digit_val(digit_char(n as int)));
        assert(digit_val(digit_char(n as int)) == n);
    } else {
        lemma_dec_digits_value(n / 10);
        let s = dec_digits(n / 10).push(digit_char((n % 10) as int));
        assert(s.drop_last() =~= dec_digits(n / 10));
        assert(s.last() == digit_char((n % 10) as int));
        assert(digit_val(digit_char((n % 10) as int)) == n % 10);
        assert(dec_value(s) == (n / 10) * 10 + n % 10);
    }
}

/// Decimal formatting followed by decimal parsing is the identity.
pub proof fn lemma_format_parse_round_trip(n: nat)
    ensures
        spec_parse_dec(dec_digits(n)) == Some(n as int),
{
    lemma_dec_digits_wf(n);
    lemma_dec_digits_value(n);
}

/// The one-character string for digit `d`.
fn digit_to_str(d: usize) -> (s: &'static str)
    requires
        d < 10,
    ensures
        s@ =~= seq![digit_char(d as int)],
{
    proof {
        reveal_strlit("0");
        reveal_strlit("1");
        reveal_strlit("2");
        reveal_strlit("3");
        reveal_strlit("4");
        reveal_strlit("5");
        reveal_strlit("6");
        reveal_strlit("7");
        reveal_strlit("8");
        reveal_strlit("9");
    }
    if d == 0 {
        "0"
    } else if d == 1 {
        "1"
    } else if d == 2 {
        "2"
    } else if d == 3 {
        "3"
    } else if d == 4 {
        "4"
    } else if d == 5 {
        "5"
    } else if d == 6 {
        "6"
    } else if d == 7 {
        "7"
    } else if d == 8 {
        "8"
    } else {
        "9"
    }
}

/// Formats `n` as its canonical decimal numeral.
pub fn format_usize(n: usize) -> (s: String)
    ensures
        s@ == dec_digits(n as nat),
    decreases n,
{
    if n < 10 {
        String::from_str(digit_to_str(n))
    } else {
        let prefix = format_usize(n / 10);
        let s = prefix.concat(digit_to_str(n % 10));
        proof {
            assert(s@ =~= dec_digits((n / 10) as nat).push(digit_char((n % 10) as int)));
        }
        s
    }
}

/// The digit value of `c`, if `c` is a digit.
fn char_to_digit(c: char) -> (r: Option<usize>)
    ensures
        match r {
            Some(d) => is_digit(c) && d == digit_val(c),
            None => !is_digit(c),
        },
{
    match c {
        '0' => Some(0),
        '1' => Some(1),
        '2' => Some(2),
        '3' => Some(3),
        '4' => Some(4),
        '5' => Some(5),
        '6' => Some(6),
        '7' => Some(7),
        '8' => Some(8),
        '9' => Some(9),
        _ => None,
    }
}

/// Parses `s` as a decimal numeral. Returns `None` when `s` is empty,
/// holds a non-digit, or denotes a value that does not fit in `usize`.
pub fn parse_usize(s: &str) -> (r: Option<usize>)
    ensures
        match r {
            Some(v) => spec_parse_dec(s@) == Some(v as int),
            None => spec_parse_dec(s@) is None || spec_parse_dec(s@)->Some_0 > usize::MAX,
        },
{
    let len = s.unicode_len();
    if len == 0 {
        return None;
    }
    let mut acc: usize = 0;
    let mut overflowed: bool = false;
    let mut i: usize = 0;
    while i < len
        invariant
            len == s@.len(),
            0 < len,
            i <= len,
            forall|j: int| 0 <= j < i ==> is_digit(#[trigger] s@[j]),
            !overflowed ==> acc == dec_value(s@.subrange(0, i as int)),
            overflowed ==> dec_value(s@.subrange(0, i as int)) > usize::MAX,
        decreases len - i,
    {
        let c = s.get_char(i);
        let d = match char_to_digit(c) {
            Some(d) => d,
            None => {
                proof {
                    assert(!is_digit(s@[i as int]));
                }
                return None;
            },
        };
        proof {
            assert(s@.subrange(0, i + 1 as int).drop_last() =~= s@.subrange(0, i as int));
            assert(s@.subrange(0, i + 1 as int).last() == s@[i as int]);
        }
        if !overflowed {
            let shifted = acc.checked_mul(10);
            match shifted {
                Some(sh) => {
                    match sh.checked_add(d) {
                        Some(next) => {
                            acc = next;
                        },
                        None => {
                            overflowed = true;
                        },
                    }
                },
                None => {
                    proof {
                        lemma_dec_value_nonneg(s@.subrange(0, i as int));
                    }
                    overflowed = true;
                },
            }
        } else {
            proof {
                lemma_dec_value_nonneg(s@.subrange(0, i as int));
            }
        }
        i = i + 1;
    }
    proof {
        assert(s@.subrange(0, len as int) =~= s@);
    }
    if overflowed {
        None
    } else {
        Some(acc)
    }
}

/// The part of `s` after its last dash; all of `s` when it has no dash.
/// This mirrors taking the last fragment of splitting on dashes.
pub open spec fn suffix_after_last_dash(s: Seq<char>) -> Seq<char>
    decreases s.len(),
{
    if s.len() == 0 {
        s
    } else if s.last() == '-' {
        Seq::empty()
    } else {
        suffix_after_last_dash(s.drop_last()).push(s.last())
    }
}

/// If no dash occurs at or after position `k`, and position `k` is either
/// the start of the string or preceded by a dash, then the suffix after the
/// last dash is exactly the part of the string from `k` on.
pub proof fn lemma_suffix_characterization(s: Seq<char>, k: int)
    requires
        0 <= k <= s.len(),
        forall|i: int| k <= i < s.len() ==> s[i] != '-',
        k > 0 ==> s[k - 1] == '-',
    ensures
        suffix_after_last_dash(s) == s.subrange(k, s.len() as int),
    decreases s.len(),
{
    if s.len() == 0 {
        assert(s.subrange(0, 0) =~= s);
    } else if s.last() == '-' {
        assert(k == s.len());
        assert(s.subrange(k, s.len() as int) =~= Seq::<char>::empty());
    } else {
        let t = s.drop_last();
        assert(k < s.len());
        lemma_suffix_characterization(t, k);
        assert(t.subrange(k, t.len() as int) =~= s.subrange(k, s.len() - 1));
        assert(suffix_after_last_dash(s) =~= s.subrange(k, s.len() - 1).push(s.last()));
        assert(s.subrange(k, s.len() - 1).push(s.last()) =~= s.subrange(k, s.len() as int));
    }
}

/// Appending `-t` to any string, where `t` is dash-free, makes `t` the
/// suffix after the last dash.
pub proof fn lemma_suffix_of_dash_join(p: Seq<char>, t: Seq<char>)
    requires
        forall|i: int| 0 <= i < t.len() ==> t[i] != '-',
    ensures
        suffix_after_last_dash(p + seq!['-'] + t) == t,
{
    let s = p + seq!['-'] + t;
    let k = p.len() + 1;
    assert(s[k - 1] == '-');
    assert forall|i: int| k <= i < s.len() implies s[i] != '-' by {
        assert(s[i] == t[i - k]);
    }
    lemma_suffix_characterization(s, k as int);
    assert(s.subrange(k as int, s.len() as int) =~= t);
}

/// The deterministic name of the reservation that locks slot `slot`
/// of the provider named `provider`.
pub open spec fn spec_reservation_name(provider: Seq<char>, slot: nat) -> Seq<char> {
    provider + seq!['-'] + dec_digits(slot)
}

/// Joins two strings with a dash, the shape every derived object name has.
pub fn dash_join(a: &str, b: &str) -> (r: String)
    ensures
        r@ == a@ + seq!['-'] + b@,
{
    let mut s = String::from_str(a);
    s.append("-");
    s.append(b);
    proof {
        reveal_strlit("-");
        assert("-"@ =~= seq!['-']);
        assert(s@ =~= a@ + seq!['-'] + b@);
    }
    s
}

/// Builds the reservation name `{provider}-{slot}`.
pub fn reservation_name(provider_name: &str, slot: usize) -> (r: String)
    ensures
        r@ == spec_reservation_name(provider_name@, slot as nat),
{
    let num = format_usize(slot);
    dash_join(provider_name, num.as_str())
}

/// The slot index denoted by a reservation name: the decimal value of the
/// part after the last dash, if that part is a numeral.
pub open spec fn spec_slot_of_name(name: Seq<char>) -> Option<int> {
    spec_parse_dec(suffix_after_last_dash(name))
}

/// The slot index a reconciler actually derives from a reservation name:
/// as above, except that values beyond `usize` are ignored as malformed.
pub open spec fn valid_slot_of_name(name: Seq<char>) -> Option<int> {
    match spec_slot_of_name(name) {
        Some(v) => if v <= usize::MAX {
            Some(v)
        } else {
            None
        },
        None => None,
    }
}

/// Extracts the slot index from a reservation name, ignoring malformed
/// suffixes, exactly as `valid_slot_of_name` describes.
pub fn parse_slot(name: &str) -> (r: Option<usize>)
    ensures
        match r {
            Some(v) => valid_slot_of_name(name@) == Some(v as int),
            None => valid_slot_of_name(name@) is None,
        },
{
    let len = name.unicode_len();
    let mut start: usize = len;
    while start > 0
        invariant
            start <= len,
            len == name@.len(),
            forall|i: int| start <= i < len ==> name@[i] != '-',
        ensures
            start <= len,
            len == name@.len(),
            forall|i: int| start <= i < len ==> name@[i] != '-',
            start > 0 ==> name@[start - 1] == '-',
        decreases start,
    {
        if name.get_char(start - 1) == '-' {
            break;
        }
        start = start - 1;
    }
    proof {
        lemma_suffix_characterization(name@, start as int);
        lemma_dec_value_nonneg(suffix_after_last_dash(name@));
    }
    let suffix = name.substring_char(start, len);
    parse_usize(suffix)
}

/// Parsing the name formatted for slot `slot` of provider `provider`
/// yields `slot` back: slot-name parsing is a left inverse of formatting.
/// This holds for every provider name, dashes in it included, because the
/// numeral after the final dash is itself dash-free.
pub proof fn lemma_slot_name_round_trip(provider: Seq<char>, slot: nat)
    requires
        slot <= usize::MAX,
    ensures
        valid_slot_of_name(spec_reservation_name(provider, slot)) == Some(slot as int),
{
    lemma_dec_digits_dash_free(slot);
    lemma_suffix_of_dash_join(provider, dec_digits(slot));
    lemma_format_parse_round_trip(slot);
}

/// A provider can never hold more reservations than its capacity: if every
/// reservation is named for a slot below `max_slots` and the names are
/// pairwise distinct (the store enforces this within a namespace), then
/// there are at most `max_slots` of them.
pub proof fn lemma_provider_capacity_bound(
    names: Seq<Seq<char>>,
    slots: Seq<int>,
    provider: Seq<char>,
    max_slots: int,
)
    requires
        max_slots >= 0,
        names.len() == slots.len(),
        forall|i: int|
            0 <= i < names.len() ==> #[trigger] names[i] == spec_reservation_name(
                provider,
                slots[i] as nat,
            ),
        forall|i: int, j: int| 0 <= i < j < names.len() ==> names[i] != names[j],
        forall|i: int| 0 <= i < slots.len() ==> 0 <= #[trigger] slots[i] < max_slots,
    ensures
        names.len() <= max_slots,
{
    assert forall|i: int, j: int| 0 <= i < j < slots.len() implies slots[i] != slots[j] by {
        if slots[i] == slots[j] {
            assert(names[i] == names[j]);
        }
    }
    assert(slots.no_duplicates());
    slots.unique_seq_to_set();
    let slot_set = slots.to_set();
    lemma_int_range(0, max_slots);
    assert(slot_set.subset_of(set_int_range(0, max_slots))) by {
        assert forall|v: int| slot_set.contains(v) implies set_int_range(0, max_slots).contains(
            v,
        ) by {
            let i = choose|i: int| 0 <= i < slots.len() && slots[i] == v;
            assert(0 <= slots[i] < max_slots);
        }
    }
    lemma_len_subset(slot_set, set_int_range(0, max_slots));
}

} // verus!
