//! The composite identifiers of irrigation zones.
//!
//! A zone is addressed as `<host>-<d>`: the identifier of its irrigation host,
//! 32 hexadecimal digits grouped 8-4-4-4-12 with each of the first four
//! hyphens optional, then `-` and one decimal digit, the zone's index.

use vstd::prelude::*;

use crate::text::{digit_value, is_digit};

verus! {

/// Whether a character is a hexadecimal digit of either case.
pub open spec fn is_hex(c: char) -> bool {
    ('0' <= c && c <= '9') || ('a' <= c && c <= 'f') || ('A' <= c && c <= 'F')
}

/// Whether every character of `s` is a hexadecimal digit.
pub open spec fn all_hex(s: Seq<char>) -> bool {
    forall|i: int| 0 <= i < s.len() ==> is_hex(#[trigger] s[i])
}

/// The sizes of the hexadecimal groups of a host identifier.
pub open spec fn group_sizes() -> Seq<nat> {
    seq![8, 4, 4, 4, 12]
}

/// Whether `s` is made of groups of hexadecimal digits of the given sizes,
/// each but the last one optionally followed by a hyphen.
pub open spec fn groups_match(s: Seq<char>, sizes: Seq<nat>) -> bool
    decreases sizes.len(),
{
    if sizes.len() == 0 {
        s.len() == 0
    } else if sizes.len() == 1 {
        s.len() == sizes[0] && all_hex(s)
    } else {
        let n = sizes[0] as int;
        &&& n <= s.len()
        &&& all_hex(s.take(n))
        &&& (groups_match(s.skip(n), sizes.skip(1)) || (s.len() > n && s[n] == '-' && groups_match(
            s.skip(n + 1),
            sizes.skip(1),
        )))
    }
}

/// Whether `s` is the identifier of an irrigation host.
pub open spec fn is_host_id(s: Seq<char>) -> bool {
    groups_match(s, group_sizes())
}

/// Whether `s` is a zone identifier: a host identifier, `-`, one digit.
pub open spec fn is_zone_id(s: Seq<char>) -> bool {
    &&& s.len() >= 2
    &&& s[s.len() - 2] == '-'
    &&& is_digit(s[s.len() - 1])
    &&& is_host_id(s.take(s.len() - 2))
}

/// The host part of a zone identifier.
pub open spec fn zone_host(s: Seq<char>) -> Seq<char> {
    s.take(s.len() - 2)
}

/// The zone index that ends a zone identifier.
pub open spec fn zone_index(s: Seq<char>) -> nat {
    digit_value(s[s.len() - 1])
}

/// A group that the sizes allow starts with a hexadecimal digit.
proof fn lemma_groups_start_with_hex(s: Seq<char>, sizes: Seq<nat>)
    requires
        sizes.len() >= 1,
        forall|k: int| 0 <= k < sizes.len() ==> #[trigger] sizes[k] >= 1,
        groups_match(s, sizes),
    ensures
        s.len() > 0 && is_hex(s[0]),
{
    if sizes.len() > 1 {
        assert(s.take(sizes[0] as int)[0] == s[0]);
    }
}

fn is_hex_char(c: char) -> (r: bool)
    ensures
        r == is_hex(c),
{
    ('0' <= c && c <= '9') || ('a' <= c && c <= 'f') || ('A' <= c && c <= 'F')
}

fn group_size(k: usize) -> (r: usize)
    requires
        k < 5,
    ensures
        r == group_sizes()[k as int],
{
    if k == 4 {
        12
    } else if k == 0 {
        8
    } else {
        4
    }
}

/// Whether the characters of `s` in `from..to` are all hexadecimal digits.
fn hex_run(s: &str, from: usize, to: usize) -> (r: bool)
    requires
        from <= to <= s@.len(),
    ensures
        r == all_hex(s@.subrange(from as int, to as int)),
{
    let mut i: usize = from;
    while i < to
        invariant
            from <= i <= to <= s@.len(),
            all_hex(s@.subrange(from as int, i as int)),
        decreases to - i,
    {
        let c = s.get_char(i);
        if !is_hex_char(c) {
            assert(s@.subrange(from as int, to as int)[i - from] == c);
            return false;
        }
        assert(forall|k: int|
            0 <= k < i + 1 - from ==> #[trigger] s@.subrange(from as int, i + 1)[k] == s@[from
                + k]);
        i = i + 1;
    }
    true
}

/// Whether `s[from..to]` is made of the groups from the `k`-th on.
fn groups_from(s: &str, from: usize, to: usize, k: usize) -> (r: bool)
    requires
        from <= to <= s@.len(),
        k < 5,
    ensures
        r == groups_match(s@.subrange(from as int, to as int), group_sizes().skip(k as int)),
    decreases 5 - k,
{
    let ghost t = s@.subrange(from as int, to as int);
    let ghost sizes = group_sizes().skip(k as int);
    let n = group_size(k);
    assert(sizes[0] == n);
    if k == 4 {
        assert(sizes.len() == 1);
        if to - from != n {
            return false;
        }
        return hex_run(s, from, to);
    }
    assert(sizes.len() > 1);
    assert(sizes.skip(1) =~= group_sizes().skip(k + 1));
    if to - from < n {
        return false;
    }
    let end = from + n;
    assert(t.take(n as int) =~= s@.subrange(from as int, end as int));
    if !hex_run(s, from, end) {
        return false;
    }
    assert(t.skip(n as int) =~= s@.subrange(end as int, to as int));
    if end < to && s.get_char(end) == '-' {
        assert(t[n as int] == '-');
        assert(t.skip(n + 1) =~= s@.subrange(end + 1, to as int));
        proof {
            let rest = sizes.skip(1);
            assert forall|j: int| 0 <= j < rest.len() implies #[trigger] rest[j] >= 1 by {
                assert(rest[j] == group_sizes()[k + 1 + j]);
            }
            if groups_match(t.skip(n as int), rest) {
                lemma_groups_start_with_hex(t.skip(n as int), rest);
            }
        }
        groups_from(s, end + 1, to, k + 1)
    } else {
        groups_from(s, end, to, k + 1)
    }
}

/// Whether `guid` is the composite identifier of an irrigation zone.
pub fn check_if_zone(guid: &str) -> (r: bool)
    ensures
        r == is_zone_id(guid@),
{
    let n = guid.unicode_len();
    if n < 2 {
        return false;
    }
    let dash = guid.get_char(n - 2);
    let digit = guid.get_char(n - 1);
    if dash != '-' || !('0' <= digit && digit <= '9') {
        return false;
    }
    assert(guid@.take(n - 2) =~= guid@.subrange(0, n - 2));
    assert(group_sizes().skip(0) =~= group_sizes());
    groups_from(guid, 0, n - 2, 0)
}

} // verus!
