//! The keyspace enumerator: rows of passcodes, in ascending order, with the
//! digests not yet computed.
use std::collections::HashSet;
use vstd::prelude::*;

verus! {

broadcast use vstd::std_specs::hash::group_hash_axioms;

/// One row of a table: a passcode as four little-endian bytes and its digest.
pub type Row = ([u8; 4], [u8; 32]);

/// The smallest passcode of the keyspace.
pub const MIN_PASSCODE_VALUE: u32 = 1;

/// The largest passcode of the keyspace (99 999 998).
pub const MAX_PASSCODE_VALUE: u32 = 99_999_998;

/// The passcodes that are excluded as trivially weak: eight equal digits, and
/// the two runs of digits.
pub open spec fn invalid_values() -> Seq<u32> {
    seq![
        0u32, 11111111u32, 22222222u32, 33333333u32, 44444444u32, 55555555u32,
        66666666u32, 77777777u32, 88888888u32, 99999999u32, 12345678u32, 87654321u32,
    ]
}

pub open spec fn is_invalid(v: int) -> bool {
    exists|k: int| 0 <= k < invalid_values().len() && invalid_values()[k] == v
}

/// The four little-endian bytes of `v`.
pub open spec fn le_bytes(v: u32) -> Seq<u8> {
    seq![
        (v % 0x100) as u8,
        ((v / 0x100) % 0x100) as u8,
        ((v / 0x1_0000) % 0x100) as u8,
        ((v / 0x100_0000) % 0x100) as u8,
    ]
}

/// The value that four little-endian bytes stand for.
pub open spec fn le_value(b: Seq<u8>) -> int {
    b[0] + 0x100 * b[1] + 0x1_0000 * b[2] + 0x100_0000 * b[3]
}

/// The passcodes in `[lo, hi)` that are not excluded, in ascending order.
pub open spec fn keyspace_between(lo: int, hi: int) -> Seq<u32>
    decreases hi - lo,
{
    if hi <= lo {
        Seq::empty()
    } else {
        let s = keyspace_between(lo, hi - 1);
        if is_invalid(hi - 1) {
            s
        } else {
            s.push((hi - 1) as u32)
        }
    }
}

/// The whole keyspace: every passcode of the fixed range that is not excluded.
pub open spec fn keyspace() -> Seq<u32> {
    keyspace_between(MIN_PASSCODE_VALUE as int, MAX_PASSCODE_VALUE as int + 1)
}

pub open spec fn zero_digest() -> Seq<u8> {
    Seq::new(32, |i: int| 0u8)
}

/// `t` holds one row for each of `keys`, in the same order, each with an
/// all-zero digest.
pub open spec fn is_empty_table_of(t: Seq<Row>, keys: Seq<u32>) -> bool {
    &&& t.len() == keys.len()
    &&& forall|i: int| 0 <= i < t.len() ==> (#[trigger] t[i]).0@ == le_bytes(keys[i])
    &&& forall|i: int| 0 <= i < t.len() ==> (#[trigger] t[i]).1@ == zero_digest()
}

/// How many of `s` lie in `[lo, hi)`.
pub open spec fn count_between(s: Seq<u32>, lo: int, hi: int) -> nat
    decreases s.len(),
{
    if s.len() == 0 {
        0
    } else {
        count_between(s.drop_last(), lo, hi) + if lo <= s.last() < hi {
            1nat
        } else {
            0nat
        }
    }
}

fn invalid_values_array() -> (r: [u32; 12])
    ensures
        r@ == invalid_values(),
{
    let r = [
        0u32, 11111111u32, 22222222u32, 33333333u32, 44444444u32, 55555555u32,
        66666666u32, 77777777u32, 88888888u32, 99999999u32, 12345678u32, 87654321u32,
    ];
    assert(r@ =~= invalid_values());
    r
}

fn to_le_bytes(v: u32) -> (r: [u8; 4])
    ensures
        r@ == le_bytes(v),
{
    let r = [
        (v % 0x100) as u8,
        ((v / 0x100) % 0x100) as u8,
        ((v / 0x1_0000) % 0x100) as u8,
        ((v / 0x100_0000) % 0x100) as u8,
    ];
    assert(r@ =~= le_bytes(v));
    r
}


/// Moving the upper end of `[lo, hi)` up by one adds one to the count exactly
/// when `hi` occurs in `s`.
proof fn lemma_count_step(s: Seq<u32>, lo: int, hi: int)
    requires
        s.no_duplicates(),
        lo <= hi,
    ensures
        count_between(s, lo, hi + 1) == count_between(s, lo, hi) + if exists|k: int|
            0 <= k < s.len() && s[k] == hi {
            1nat
        } else {
            0nat
        },
    decreases s.len(),
{
    if s.len() > 0 {
        let d = s.drop_last();
        assert(d.no_duplicates());
        lemma_count_step(d, lo, hi);
        if exists|k: int| 0 <= k < s.len() && s[k] == hi {
            let k = choose|k: int| 0 <= k < s.len() && s[k] == hi;
            if k < d.len() {
                assert(d[k] == hi);
            }
        } else {
            assert forall|k: int| 0 <= k < d.len() implies d[k] != hi by {
                assert(s[k] == d[k]);
            }
        }
        if exists|k: int| 0 <= k < d.len() && d[k] == hi {
            let k = choose|k: int| 0 <= k < d.len() && d[k] == hi;
            assert(s[k] == hi);
        }
    }
}

/// Counting over a prefix one element longer adds that element's share.
proof fn lemma_count_take(s: Seq<u32>, k: int, lo: int, hi: int)
    requires
        0 <= k < s.len(),
    ensures
        count_between(s.take(k + 1), lo, hi) == count_between(s.take(k), lo, hi) + if lo
            <= s[k] < hi {
            1nat
        } else {
            0nat
        },
{
    assert(s.take(k + 1).drop_last() =~= s.take(k));
}

/// The enumeration of `[lo, hi)` holds one passcode for every value of the
/// range that is not excluded.
proof fn lemma_keyspace_len(lo: int, hi: int)
    requires
        lo <= hi,
    ensures
        keyspace_between(lo, hi).len() + count_between(invalid_values(), lo, hi) == hi - lo,
    decreases hi - lo,
{
    if lo < hi {
        lemma_keyspace_len(lo, hi - 1);
        lemma_count_step(invalid_values(), lo, hi - 1);
    } else {
        assert(count_between(invalid_values(), lo, hi) == 0) by {
            reveal_with_fuel(count_between, 13);
        }
    }
}

/// A value occurs in the enumeration of `[lo, hi)` exactly when it lies in
/// the range and is not excluded.
pub proof fn lemma_keyspace_between_members(lo: int, hi: int, v: u32)
    requires
        0 <= lo,
        hi <= u32::MAX as int + 1,
    ensures
        keyspace_between(lo, hi).contains(v) <==> (lo <= v < hi && !is_invalid(v as int)),
    decreases hi - lo,
{
    if lo < hi {
        lemma_keyspace_between_members(lo, hi - 1, v);
        let s = keyspace_between(lo, hi - 1);
        if !is_invalid(hi - 1) {
            let t = s.push((hi - 1) as u32);
            assert(t[s.len() as int] == (hi - 1) as u32);
            if s.contains(v) {
                let k = choose|k: int| 0 <= k < s.len() && s[k] == v;
                assert(t[k] == v);
            }
            if t.contains(v) && v != hi - 1 {
                let k = choose|k: int| 0 <= k < t.len() && t[k] == v;
                assert(s[k] == v);
            }
        }
    }
}

/// The enumeration of `[lo, hi)` is strictly ascending, and all of it lies in
/// the range.
pub proof fn lemma_keyspace_between_ascending(lo: int, hi: int)
    requires
        0 <= lo,
        hi <= u32::MAX as int + 1,
    ensures
        forall|i: int|
            0 <= i < keyspace_between(lo, hi).len() ==> lo <= #[trigger] keyspace_between(
                lo,
                hi,
            )[i] < hi,
        forall|i: int, j: int|
            0 <= i < j < keyspace_between(lo, hi).len() ==> keyspace_between(lo, hi)[i]
                < keyspace_between(lo, hi)[j],
    decreases hi - lo,
{
    if lo < hi {
        lemma_keyspace_between_ascending(lo, hi - 1);
        let s = keyspace_between(lo, hi - 1);
        if !is_invalid(hi - 1) {
            let t = s.push((hi - 1) as u32);
            assert(t[s.len() as int] == hi - 1);
            assert forall|i: int| 0 <= i < s.len() implies t[i] == s[i] by {}
        }
    }
}

/// The whole keyspace has one row for each value of the fixed range but the
/// ten excluded values that lie in it.
pub proof fn lemma_table_size()
    ensures
        keyspace().len() == (MAX_PASSCODE_VALUE - MIN_PASSCODE_VALUE + 1) - 10,
{
    lemma_keyspace_len(MIN_PASSCODE_VALUE as int, MAX_PASSCODE_VALUE as int + 1);
    assert(count_between(invalid_values(), 1, 99_999_999) == 10) by {
        reveal_with_fuel(count_between, 13);
    }
}

/// No excluded value is in the keyspace, and every other value of the fixed
/// range is.
pub proof fn lemma_keyspace_members(v: u32)
    ensures
        keyspace().contains(v) <==> (MIN_PASSCODE_VALUE <= v <= MAX_PASSCODE_VALUE
            && !is_invalid(v as int)),
        is_invalid(v as int) ==> !keyspace().contains(v),
{
    lemma_keyspace_between_members(MIN_PASSCODE_VALUE as int, MAX_PASSCODE_VALUE as int + 1, v);
}

/// The keyspace is strictly ascending: no value occurs twice.
pub proof fn lemma_keyspace_ascending(i: int, j: int)
    requires
        0 <= i < j < keyspace().len(),
    ensures
        keyspace()[i] < keyspace()[j],
{
    lemma_keyspace_between_ascending(MIN_PASSCODE_VALUE as int, MAX_PASSCODE_VALUE as int + 1);
}

/// Between two neighbouring passcodes of the keyspace lie only excluded
/// values: the enumeration leaves no other gap.
pub proof fn lemma_keyspace_no_gaps(i: int, v: u32)
    requires
        0 <= i,
        i + 1 < keyspace().len(),
        keyspace()[i] < v < keyspace()[i + 1],
    ensures
        is_invalid(v as int),
{
    lemma_keyspace_ascending(i, i + 1);
    lemma_keyspace_members(v);
    lemma_keyspace_members(keyspace()[i]);
    lemma_keyspace_members(keyspace()[i + 1]);
    if !is_invalid(v as int) {
        let k = choose|k: int| 0 <= k < keyspace().len() && keyspace()[k] == v;
        if k <= i {
            if k < i {
                lemma_keyspace_ascending(k, i);
            }
        } else {
            if k > i + 1 {
                lemma_keyspace_ascending(i + 1, k);
            }
        }
    }
}

/// Builds the rows of the passcodes in `[first, last]` that are not excluded,
/// in ascending order, each with an all-zero digest.
pub fn gen_table_between(first: u32, last: u32) -> (t: Vec<Row>)
    ensures
        is_empty_table_of(t@, keyspace_between(first as int, last as int + 1)),
{
    let values = invalid_values_array();
    let mut invalid_set: HashSet<u32> = HashSet::new();
    let mut excluded: u64 = 0;
    let mut k: usize = 0;
    while k < 12
        invariant
            k <= 12,
            values@ == invalid_values(),
            excluded == count_between(values@.take(k as int), first as int, last as int + 1),
            excluded <= k,
            forall|v: u32|
                invalid_set@.contains(v) <==> exists|j: int| 0 <= j < k && values@[j] == v,
        decreases 12 - k,
    {
        let v = values[k];
        proof {
            lemma_count_take(values@, k as int, first as int, last as int + 1);
        }
        if first <= v && v <= last {
            excluded = excluded + 1;
        }
        invalid_set.insert(v);
        assert forall|w: u32| invalid_set@.contains(w) implies exists|j: int|
            0 <= j < k + 1 && values@[j] == w by {
            if w != v {
                let j = choose|j: int| 0 <= j < k && values@[j] == w;
            } else {
                assert(values@[k as int] == w);
            }
        }
        k = k + 1;
    }
    assert(values@.take(12) =~= values@);
    let span: u64 = if first <= last {
        last as u64 + 1 - first as u64
    } else {
        0
    };
    let capacity: u64 = if span >= excluded {
        span - excluded
    } else {
        0
    };
    let mut table: Vec<Row> = Vec::with_capacity(capacity as usize);
    let mut i: u64 = first as u64;
    while i <= last as u64
        invariant
            first <= i,
            i <= last as u64 + 1 || i == first,
            forall|v: u32| invalid_set@.contains(v) <==> is_invalid(v as int),
            is_empty_table_of(table@, keyspace_between(first as int, i as int)),
        decreases last as u64 + 1 - i,
    {
        let v = i as u32;
        if !invalid_set.contains(&v) {
            let row: Row = (to_le_bytes(v), [0u8; 32]);
            assert(row.1@ =~= zero_digest());
            table.push(row);
        }
        assert(keyspace_between(first as int, i + 1) == if is_invalid(i as int) {
            keyspace_between(first as int, i as int)
        } else {
            keyspace_between(first as int, i as int).push(v)
        });
        i = i + 1;
    }
    table
}

/// Builds the table of the whole keyspace: one row for each passcode from
/// `MIN_PASSCODE_VALUE` to `MAX_PASSCODE_VALUE` that is not excluded, in
/// ascending order, each with an all-zero digest.
pub fn gen_empty_table() -> (t: Vec<Row>)
    ensures
        is_empty_table_of(t@, keyspace()),
        t@.len() == (MAX_PASSCODE_VALUE - MIN_PASSCODE_VALUE + 1) - 10,
{
    proof {
        lemma_table_size();
    }
    gen_table_between(MIN_PASSCODE_VALUE, MAX_PASSCODE_VALUE)
}

} // verus!
