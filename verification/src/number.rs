//! Character-level scanning of phone numbers: digit checks and prefix
//! membership against a carrier's table.

use vstd::prelude::*;

verus! {

/// An ASCII decimal digit.
pub open spec fn is_digit_char(c: char) -> bool {
    '0' <= c && c <= '9'
}

/// Every character of `s` is an ASCII decimal digit.
pub open spec fn all_digits(s: Seq<char>) -> bool {
    forall|i: int| 0 <= i < s.len() ==> is_digit_char(#[trigger] s[i])
}

/// Every entry of the table is a string of ASCII decimal digits.
pub open spec fn digit_table(ps: Seq<Seq<char>>) -> bool {
    forall|i: int| 0 <= i < ps.len() ==> all_digits(#[trigger] ps[i])
}

/// Some entry of the table is a leading prefix of (or equal to) the number.
/// Membership is tested prefix-of-prefix, not by exact equality, so tables
/// that mix four- and five-digit entries are matched correctly.
pub open spec fn table_matches(ps: Seq<Seq<char>>, number: Seq<char>) -> bool {
    exists|i: int| 0 <= i < ps.len() && (#[trigger] ps[i]).is_prefix_of(number)
}

/// The number consists of the given prefix followed by exactly seven more
/// ASCII digits.
pub open spec fn matches_one_prefix(p: Seq<char>, number: Seq<char>) -> bool {
    &&& number.len() == p.len() + 7
    &&& p.is_prefix_of(number)
    &&& all_digits(number.subrange(p.len() as int, number.len() as int))
}

/// The number consists of some table entry followed by exactly seven more
/// ASCII digits: the meaning of the validation rule built from the table.
pub open spec fn matches_prefix_rule(ps: Seq<Seq<char>>, number: Seq<char>) -> bool {
    exists|i: int| 0 <= i < ps.len() && matches_one_prefix(#[trigger] ps[i], number)
}

/// Decides `all_digits` on a string slice.
pub fn all_ascii_digits(s: &str) -> (r: bool)
    ensures
        r == all_digits(s@),
{
    let n = s.unicode_len();
    let mut i: usize = 0;
    while i < n
        invariant
            n == s@.len(),
            i <= n,
            forall|j: int| 0 <= j < i ==> is_digit_char(#[trigger] s@[j]),
        decreases n - i,
    {
        let c = s.get_char(i);
        if !('0' <= c && c <= '9') {
            return false;
        }
        i = i + 1;
    }
    true
}

/// Decides whether `p` is a leading prefix of `number`, character by
/// character.
pub fn starts_with_prefix(number: &str, p: &str) -> (r: bool)
    ensures
        r == p@.is_prefix_of(number@),
{
    let plen = p.unicode_len();
    let nlen = number.unicode_len();
    if plen > nlen {
        return false;
    }
    let mut i: usize = 0;
    while i < plen
        invariant
            plen == p@.len(),
            nlen == number@.len(),
            plen <= nlen,
            i <= plen,
            forall|j: int| 0 <= j < i ==> p@[j] == number@[j],
        decreases plen - i,
    {
        if p.get_char(i) != number.get_char(i) {
            return false;
        }
        i = i + 1;
    }
    proof {
        assert(p@ =~= number@.subrange(0, p@.len() as int));
    }
    true
}

/// Decides `table_matches` for a carrier's table.
pub fn table_contains_prefix_of(table: &Vec<String>, number: &str) -> (r: bool)
    ensures
        r == table_matches(table.deep_view(), number@),
{
    let n = table.len();
    let mut i: usize = 0;
    while i < n
        invariant
            n == table.len(),
            i <= n,
            forall|j: int| 0 <= j < i ==> !(#[trigger] table.deep_view()[j]).is_prefix_of(number@),
        decreases n - i,
    {
        if starts_with_prefix(number, table[i].as_str()) {
            assert(table.deep_view()[i as int].is_prefix_of(number@));
            return true;
        }
        i = i + 1;
    }
    false
}

} // verus!
