//! The laws of the library, stated as public proof functions over the same
//! spec functions that the executable contracts use. Each law takes the
//! postconditions of the functions it relates as hypotheses and states what
//! follows for every input its `requires` admits.

use vstd::prelude::*;

use crate::errors::MobileNetworkError;
use crate::mobile_network::{get_ens, lookup_key, MobileNetwork};
use crate::mutate::{
    append_dito_ens, append_globe_ens, append_smart_ens, append_sun_ens, append_tnt_ens,
    reset_dito_ens, reset_globe_ens, reset_smart_ens, reset_sun_ens, reset_tnt_ens,
};
use crate::number::{all_digits, digit_table, is_digit_char, matches_one_prefix, matches_prefix_rule, table_matches};
use crate::registry::{
    dito_default_prefixes, globe_default_prefixes, smart_default_prefixes, sun_default_prefixes,
    tnt_default_prefixes, Registry,
};
use crate::rule::rule_buildable;
use crate::validate::{rule_validate_ens, Validate};

verus! {

/// Seven zero digits: appended to a prefix, they form the shortest number
/// that the prefix can lead.
pub open spec fn zeros7() -> Seq<char> {
    seq!['0', '0', '0', '0', '0', '0', '0']
}

/// Law: validation reports `NonNumeric` for a number containing a non-digit
/// character, whatever the number's length and whatever table the carrier's
/// rule was built from.
pub proof fn lemma_non_numeric_rejected(
    ps: Seq<Seq<char>>,
    number: Seq<char>,
    r: Result<bool, MobileNetworkError>,
)
    requires
        !all_digits(number),
        rule_validate_ens(ps, number, r),
    ensures
        r == Result::<bool, MobileNetworkError>::Err(MobileNetworkError::NonNumeric),
{
}

/// Law: validation reports `InvalidLength` for an all-digit number whose
/// length is not exactly 11, whatever table the carrier's rule was built
/// from.
pub proof fn lemma_wrong_length_rejected(
    ps: Seq<Seq<char>>,
    number: Seq<char>,
    r: Result<bool, MobileNetworkError>,
)
    requires
        all_digits(number),
        number.len() != 11,
        rule_validate_ens(ps, number, r),
    ensures
        r == Result::<bool, MobileNetworkError>::Err(MobileNetworkError::InvalidLength),
{
}

/// Law: classification of an all-digit, 11-digit number that no table
/// claims fails with `UnrecognizedPrefix`, carrying the number's first four
/// characters.
pub proof fn lemma_unrecognized_prefix(
    reg: Registry,
    number: Seq<char>,
    r: Result<MobileNetwork, MobileNetworkError>,
)
    requires
        all_digits(number),
        number.len() == 11,
        !table_matches(reg.globe_view(), number),
        !table_matches(reg.smart_view(), number),
        !table_matches(reg.sun_view(), number),
        !table_matches(reg.tnt_view(), number),
        !table_matches(reg.dito_view(), number),
        get_ens(reg, number, r),
    ensures
        r matches Err(e) && e matches MobileNetworkError::UnrecognizedPrefix(text) && text@
            == lookup_key(number),
{
}

/// Law: a prefix taken from an all-digit table, followed by seven zeros,
/// validates against the rule built from that table: the result is `Ok(true)`
/// when the prefix has four digits (the number then has exactly eleven), and
/// `InvalidLength` for a prefix of any other length.
pub proof fn lemma_table_prefix_validates(
    ps: Seq<Seq<char>>,
    p: Seq<char>,
    number: Seq<char>,
    r: Result<bool, MobileNetworkError>,
)
    requires
        digit_table(ps),
        ps.contains(p),
        number == p + zeros7(),
        rule_validate_ens(ps, number, r),
    ensures
        p.len() == 4 ==> r == Result::<bool, MobileNetworkError>::Ok(true),
        p.len() != 4 ==> r == Result::<bool, MobileNetworkError>::Err(
            MobileNetworkError::InvalidLength,
        ),
{
    let i = choose|i: int| 0 <= i < ps.len() && ps[i] == p;
    assert(all_digits(p));
    assert forall|j: int| 0 <= j < number.len() implies is_digit_char(#[trigger] number[j]) by {
        if j < p.len() {
            assert(number[j] == p[j]);
        } else {
            assert(number[j] == zeros7()[j - p.len()]);
        }
    }
    if p.len() == 4 {
        assert(p.is_prefix_of(number)) by {
            assert(p =~= number.subrange(0, p.len() as int));
        }
        assert(all_digits(number.subrange(p.len() as int, number.len() as int)));
        assert(matches_one_prefix(ps[i], number));
        assert(matches_prefix_rule(ps, number));
    }
}

/// Every entry of each default table is a string of ASCII digits.
pub proof fn lemma_default_tables_all_digits()
    ensures
        digit_table(globe_default_prefixes()),
        digit_table(smart_default_prefixes()),
        digit_table(sun_default_prefixes()),
        digit_table(tnt_default_prefixes()),
        digit_table(dito_default_prefixes()),
{
}

/// Law: a prefix present in the Globe table, followed by seven zeros,
/// classifies as Globe, whatever the other tables hold; only the pattern
/// engine's rejection of the composed pattern
/// can stand in the way.
pub proof fn lemma_prefix_classifies_globe(
    reg: Registry,
    p: Seq<char>,
    number: Seq<char>,
    r: Result<MobileNetwork, MobileNetworkError>,
)
    requires
        reg.globe_view().contains(p),
        number == p + zeros7(),
        get_ens(reg, number, r),
    ensures
        rule_buildable(reg.globe_view()) ==> (r matches Ok(m) && m matches MobileNetwork::Globe(v)
            && v.prefixes() == reg.globe_view()),
        !rule_buildable(reg.globe_view()) ==> (r matches Err(e) && e is RegexError),
{
    let i = choose|i: int| 0 <= i < reg.globe_view().len() && reg.globe_view()[i] == p;
    assert(p.is_prefix_of(number)) by {
        assert(p =~= number.subrange(0, p.len() as int));
    }
    assert(table_matches(reg.globe_view(), number));
}

/// Law: a prefix present in the Smart table, followed by seven zeros,
/// classifies as Smart, provided no table consulted earlier claims the
/// number; only the pattern engine's rejection of the composed pattern
/// can stand in the way.
pub proof fn lemma_prefix_classifies_smart(
    reg: Registry,
    p: Seq<char>,
    number: Seq<char>,
    r: Result<MobileNetwork, MobileNetworkError>,
)
    requires
        reg.smart_view().contains(p),
        number == p + zeros7(),
        !table_matches(reg.globe_view(), number),
        get_ens(reg, number, r),
    ensures
        rule_buildable(reg.smart_view()) ==> (r matches Ok(m) && m matches MobileNetwork::Smart(v)
            && v.prefixes() == reg.smart_view()),
        !rule_buildable(reg.smart_view()) ==> (r matches Err(e) && e is RegexError),
{
    let i = choose|i: int| 0 <= i < reg.smart_view().len() && reg.smart_view()[i] == p;
    assert(p.is_prefix_of(number)) by {
        assert(p =~= number.subrange(0, p.len() as int));
    }
    assert(table_matches(reg.smart_view(), number));
}

/// Law: a prefix present in the Sun table, followed by seven zeros,
/// classifies as Sun, provided no table consulted earlier claims the
/// number; only the pattern engine's rejection of the composed pattern
/// can stand in the way.
pub proof fn lemma_prefix_classifies_sun(
    reg: Registry,
    p: Seq<char>,
    number: Seq<char>,
    r: Result<MobileNetwork, MobileNetworkError>,
)
    requires
        reg.sun_view().contains(p),
        number == p + zeros7(),
        !table_matches(reg.globe_view(), number),
        !table_matches(reg.smart_view(), number),
        get_ens(reg, number, r),
    ensures
        rule_buildable(reg.sun_view()) ==> (r matches Ok(m) && m matches MobileNetwork::Sun(v)
            && v.prefixes() == reg.sun_view()),
        !rule_buildable(reg.sun_view()) ==> (r matches Err(e) && e is RegexError),
{
    let i = choose|i: int| 0 <= i < reg.sun_view().len() && reg.sun_view()[i] == p;
    assert(p.is_prefix_of(number)) by {
        assert(p =~= number.subrange(0, p.len() as int));
    }
    assert(table_matches(reg.sun_view(), number));
}

/// Law: a prefix present in the TNT table, followed by seven zeros,
/// classifies as TNT, provided no table consulted earlier claims the
/// number; only the pattern engine's rejection of the composed pattern
/// can stand in the way.
pub proof fn lemma_prefix_classifies_tnt(
    reg: Registry,
    p: Seq<char>,
    number: Seq<char>,
    r: Result<MobileNetwork, MobileNetworkError>,
)
    requires
        reg.tnt_view().contains(p),
        number == p + zeros7(),
        !table_matches(reg.globe_view(), number),
        !table_matches(reg.smart_view(), number),
        !table_matches(reg.sun_view(), number),
        get_ens(reg, number, r),
    ensures
        rule_buildable(reg.tnt_view()) ==> (r matches Ok(m) && m matches MobileNetwork::TNT(v)
            && v.prefixes() == reg.tnt_view()),
        !rule_buildable(reg.tnt_view()) ==> (r matches Err(e) && e is RegexError),
{
    let i = choose|i: int| 0 <= i < reg.tnt_view().len() && reg.tnt_view()[i] == p;
    assert(p.is_prefix_of(number)) by {
        assert(p =~= number.subrange(0, p.len() as int));
    }
    assert(table_matches(reg.tnt_view(), number));
}

/// Law: a prefix present in the Dito table, followed by seven zeros,
/// classifies as Dito, provided no table consulted earlier claims the
/// number; only the pattern engine's rejection of the composed pattern
/// can stand in the way.
pub proof fn lemma_prefix_classifies_dito(
    reg: Registry,
    p: Seq<char>,
    number: Seq<char>,
    r: Result<MobileNetwork, MobileNetworkError>,
)
    requires
        reg.dito_view().contains(p),
        number == p + zeros7(),
        !table_matches(reg.globe_view(), number),
        !table_matches(reg.smart_view(), number),
        !table_matches(reg.sun_view(), number),
        !table_matches(reg.tnt_view(), number),
        get_ens(reg, number, r),
    ensures
        rule_buildable(reg.dito_view()) ==> (r matches Ok(m) && m matches MobileNetwork::Dito(v)
            && v.prefixes() == reg.dito_view()),
        !rule_buildable(reg.dito_view()) ==> (r matches Err(e) && e is RegexError),
{
    let i = choose|i: int| 0 <= i < reg.dito_view().len() && reg.dito_view()[i] == p;
    assert(p.is_prefix_of(number)) by {
        assert(p =~= number.subrange(0, p.len() as int));
    }
    assert(table_matches(reg.dito_view(), number));
}

/// Law: resetting the Globe table is idempotent: the table is empty after
/// a reset, and an immediately following second reset finds and leaves it
/// empty, changing nothing.
pub proof fn lemma_reset_globe_idempotent(r0: Registry, r1: Registry, r2: Registry)
    requires
        reset_globe_ens(r0, r1),
        reset_globe_ens(r1, r2),
    ensures
        r1.globe_view().len() == 0,
        r2.globe_view().len() == 0,
        r2.globe_view() == r1.globe_view(),
        r2.smart_view() == r1.smart_view(),
        r2.sun_view() == r1.sun_view(),
        r2.tnt_view() == r1.tnt_view(),
        r2.dito_view() == r1.dito_view(),
{
}

/// Law: resetting the Smart table is idempotent: the table is empty after
/// a reset, and an immediately following second reset finds and leaves it
/// empty, changing nothing.
pub proof fn lemma_reset_smart_idempotent(r0: Registry, r1: Registry, r2: Registry)
    requires
        reset_smart_ens(r0, r1),
        reset_smart_ens(r1, r2),
    ensures
        r1.smart_view().len() == 0,
        r2.smart_view().len() == 0,
        r2.smart_view() == r1.smart_view(),
        r2.globe_view() == r1.globe_view(),
        r2.sun_view() == r1.sun_view(),
        r2.tnt_view() == r1.tnt_view(),
        r2.dito_view() == r1.dito_view(),
{
}

/// Law: resetting the Sun table is idempotent: the table is empty after
/// a reset, and an immediately following second reset finds and leaves it
/// empty, changing nothing.
pub proof fn lemma_reset_sun_idempotent(r0: Registry, r1: Registry, r2: Registry)
    requires
        reset_sun_ens(r0, r1),
        reset_sun_ens(r1, r2),
    ensures
        r1.sun_view().len() == 0,
        r2.sun_view().len() == 0,
        r2.sun_view() == r1.sun_view(),
        r2.globe_view() == r1.globe_view(),
        r2.smart_view() == r1.smart_view(),
        r2.tnt_view() == r1.tnt_view(),
        r2.dito_view() == r1.dito_view(),
{
}

/// Law: resetting the TNT table is idempotent: the table is empty after
/// a reset, and an immediately following second reset finds and leaves it
/// empty, changing nothing.
pub proof fn lemma_reset_tnt_idempotent(r0: Registry, r1: Registry, r2: Registry)
    requires
        reset_tnt_ens(r0, r1),
        reset_tnt_ens(r1, r2),
    ensures
        r1.tnt_view().len() == 0,
        r2.tnt_view().len() == 0,
        r2.tnt_view() == r1.tnt_view(),
        r2.globe_view() == r1.globe_view(),
        r2.smart_view() == r1.smart_view(),
        r2.sun_view() == r1.sun_view(),
        r2.dito_view() == r1.dito_view(),
{
}

/// Law: resetting the Dito table is idempotent: the table is empty after
/// a reset, and an immediately following second reset finds and leaves it
/// empty, changing nothing.
pub proof fn lemma_reset_dito_idempotent(r0: Registry, r1: Registry, r2: Registry)
    requires
        reset_dito_ens(r0, r1),
        reset_dito_ens(r1, r2),
    ensures
        r1.dito_view().len() == 0,
        r2.dito_view().len() == 0,
        r2.dito_view() == r1.dito_view(),
        r2.globe_view() == r1.globe_view(),
        r2.smart_view() == r1.smart_view(),
        r2.sun_view() == r1.sun_view(),
        r2.tnt_view() == r1.tnt_view(),
{
}

/// Law: after appending prefixes to the Globe table, classifying a number
/// led by one of them returns Globe; only the pattern engine's rejection
/// of the composed pattern can stand in the way.
pub proof fn lemma_append_then_get_globe(
    before: Registry,
    after: Registry,
    ps: Seq<Seq<char>>,
    p: Seq<char>,
    number: Seq<char>,
    r: Result<MobileNetwork, MobileNetworkError>,
)
    requires
        append_globe_ens(before, after, ps),
        ps.contains(p),
        p.is_prefix_of(number),
        get_ens(after, number, r),
    ensures
        rule_buildable(after.globe_view()) ==> (r matches Ok(m) && m matches MobileNetwork::Globe(v)
            && v.prefixes() == after.globe_view()),
        !rule_buildable(after.globe_view()) ==> (r matches Err(e) && e is RegexError),
{
    let i = choose|i: int| 0 <= i < ps.len() && ps[i] == p;
    assert(after.globe_view()[before.globe_view().len() + i] == p);
    assert(table_matches(after.globe_view(), number));
}

/// Law: after appending prefixes to the Smart table, classifying a number
/// led by one of them returns Smart (no earlier table claiming the number); only the pattern engine's rejection
/// of the composed pattern can stand in the way.
pub proof fn lemma_append_then_get_smart(
    before: Registry,
    after: Registry,
    ps: Seq<Seq<char>>,
    p: Seq<char>,
    number: Seq<char>,
    r: Result<MobileNetwork, MobileNetworkError>,
)
    requires
        append_smart_ens(before, after, ps),
        ps.contains(p),
        p.is_prefix_of(number),
        !table_matches(after.globe_view(), number),
        get_ens(after, number, r),
    ensures
        rule_buildable(after.smart_view()) ==> (r matches Ok(m) && m matches MobileNetwork::Smart(v)
            && v.prefixes() == after.smart_view()),
        !rule_buildable(after.smart_view()) ==> (r matches Err(e) && e is RegexError),
{
    let i = choose|i: int| 0 <= i < ps.len() && ps[i] == p;
    assert(after.smart_view()[before.smart_view().len() + i] == p);
    assert(table_matches(after.smart_view(), number));
}

/// Law: after appending prefixes to the Sun table, classifying a number
/// led by one of them returns Sun (no earlier table claiming the number); only the pattern engine's rejection
/// of the composed pattern can stand in the way.
pub proof fn lemma_append_then_get_sun(
    before: Registry,
    after: Registry,
    ps: Seq<Seq<char>>,
    p: Seq<char>,
    number: Seq<char>,
    r: Result<MobileNetwork, MobileNetworkError>,
)
    requires
        append_sun_ens(before, after, ps),
        ps.contains(p),
        p.is_prefix_of(number),
        !table_matches(after.globe_view(), number),
        !table_matches(after.smart_view(), number),
        get_ens(after, number, r),
    ensures
        rule_buildable(after.sun_view()) ==> (r matches Ok(m) && m matches MobileNetwork::Sun(v)
            && v.prefixes() == after.sun_view()),
        !rule_buildable(after.sun_view()) ==> (r matches Err(e) && e is RegexError),
{
    let i = choose|i: int| 0 <= i < ps.len() && ps[i] == p;
    assert(after.sun_view()[before.sun_view().len() + i] == p);
    assert(table_matches(after.sun_view(), number));
}

/// Law: after appending prefixes to the TNT table, classifying a number
/// led by one of them returns TNT (no earlier table claiming the number); only the pattern engine's rejection
/// of the composed pattern can stand in the way.
pub proof fn lemma_append_then_get_tnt(
    before: Registry,
    after: Registry,
    ps: Seq<Seq<char>>,
    p: Seq<char>,
    number: Seq<char>,
    r: Result<MobileNetwork, MobileNetworkError>,
)
    requires
        append_tnt_ens(before, after, ps),
        ps.contains(p),
        p.is_prefix_of(number),
        !table_matches(after.globe_view(), number),
        !table_matches(after.smart_view(), number),
        !table_matches(after.sun_view(), number),
        get_ens(after, number, r),
    ensures
        rule_buildable(after.tnt_view()) ==> (r matches Ok(m) && m matches MobileNetwork::TNT(v)
            && v.prefixes() == after.tnt_view()),
        !rule_buildable(after.tnt_view()) ==> (r matches Err(e) && e is RegexError),
{
    let i = choose|i: int| 0 <= i < ps.len() && ps[i] == p;
    assert(after.tnt_view()[before.tnt_view().len() + i] == p);
    assert(table_matches(after.tnt_view(), number));
}

/// Law: after appending prefixes to the Dito table, classifying a number
/// led by one of them returns Dito (no earlier table claiming the number); only the pattern engine's rejection
/// of the composed pattern can stand in the way.
pub proof fn lemma_append_then_get_dito(
    before: Registry,
    after: Registry,
    ps: Seq<Seq<char>>,
    p: Seq<char>,
    number: Seq<char>,
    r: Result<MobileNetwork, MobileNetworkError>,
)
    requires
        append_dito_ens(before, after, ps),
        ps.contains(p),
        p.is_prefix_of(number),
        !table_matches(after.globe_view(), number),
        !table_matches(after.smart_view(), number),
        !table_matches(after.sun_view(), number),
        !table_matches(after.tnt_view(), number),
        get_ens(after, number, r),
    ensures
        rule_buildable(after.dito_view()) ==> (r matches Ok(m) && m matches MobileNetwork::Dito(v)
            && v.prefixes() == after.dito_view()),
        !rule_buildable(after.dito_view()) ==> (r matches Err(e) && e is RegexError),
{
    let i = choose|i: int| 0 <= i < ps.len() && ps[i] == p;
    assert(after.dito_view()[before.dito_view().len() + i] == p);
    assert(table_matches(after.dito_view(), number));
}

/// The numeric value of an ASCII digit character.
spec fn digit_val(c: char) -> int {
    c as int - 48
}

/// The number named by a prefix's first four digits: distinct four-digit
/// prefixes have distinct keys.
spec fn prefix_key(s: Seq<char>) -> int {
    1000 * digit_val(s[0]) + 100 * digit_val(s[1]) + 10 * digit_val(s[2]) + digit_val(s[3])
}

/// An entry of four digits with a different key, or of five digits whose
/// fifth is not `0`, cannot be a prefix of `p + seven zeros` for a
/// four-digit `p`.
proof fn lemma_key_discriminates(q: Seq<char>, p: Seq<char>)
    requires
        q.len() == 4 || (q.len() == 5 && q[4] != '0'),
        p.len() == 4,
        key_differs(q, p),
    ensures
        !q.is_prefix_of(p + zeros7()),
{
    let n = p + zeros7();
    if q.is_prefix_of(n) {
        assert(q[0] == n.subrange(0, q.len() as int)[0]);
        assert(q[1] == n.subrange(0, q.len() as int)[1]);
        assert(q[2] == n.subrange(0, q.len() as int)[2]);
        assert(q[3] == n.subrange(0, q.len() as int)[3]);
        assert(q[0] == p[0] && q[1] == p[1] && q[2] == p[2] && q[3] == p[3]);
        if q.len() == 5 {
            assert(q[4] == n.subrange(0, 5)[4]);
            assert(q[4] == zeros7()[0]);
        }
    }
}

/// The discrimination that `lemma_key_discriminates` needs: different
/// four-digit keys, or a five-digit entry (whose fifth digit, in the tables
/// this is used on, is never `0`).
spec fn key_differs(q: Seq<char>, p: Seq<char>) -> bool {
    prefix_key(q) != prefix_key(p) || q.len() == 5
}

/// No entry of a default table consulted before Smart's is a prefix of
/// `p + seven zeros` for a prefix `p` of the default Smart table.
proof fn lemma_smart_defaults_unshadowed(p: Seq<char>)
    requires
        smart_default_prefixes().contains(p),
    ensures
        !table_matches(globe_default_prefixes(), p + zeros7()),
{
    let table = smart_default_prefixes();
    let j = choose|j: int| 0 <= j < table.len() && table[j] == p;
    assert(p.len() == 4);
    let e_globe = globe_default_prefixes();
    assert forall|i: int| 0 <= i < e_globe.len() implies !(#[trigger] e_globe[i]).is_prefix_of(
        p + zeros7(),
    ) by {
        assert(e_globe[i].len() == 4 || (e_globe[i].len() == 5 && e_globe[i][4] != '0'));
        assert(key_differs(e_globe[i], p));
        lemma_key_discriminates(e_globe[i], p);
    }
}

/// No entry of a default table consulted before Sun's is a prefix of
/// `p + seven zeros` for a prefix `p` of the default Sun table.
proof fn lemma_sun_defaults_unshadowed(p: Seq<char>)
    requires
        sun_default_prefixes().contains(p),
    ensures
        !table_matches(globe_default_prefixes(), p + zeros7()),
        !table_matches(smart_default_prefixes(), p + zeros7()),
{
    let table = sun_default_prefixes();
    let j = choose|j: int| 0 <= j < table.len() && table[j] == p;
    assert(p.len() == 4);
    let e_globe = globe_default_prefixes();
    assert forall|i: int| 0 <= i < e_globe.len() implies !(#[trigger] e_globe[i]).is_prefix_of(
        p + zeros7(),
    ) by {
        assert(e_globe[i].len() == 4 || (e_globe[i].len() == 5 && e_globe[i][4] != '0'));
        assert(key_differs(e_globe[i], p));
        lemma_key_discriminates(e_globe[i], p);
    }
    let e_smart = smart_default_prefixes();
    assert forall|i: int| 0 <= i < e_smart.len() implies !(#[trigger] e_smart[i]).is_prefix_of(
        p + zeros7(),
    ) by {
        assert(e_smart[i].len() == 4 || (e_smart[i].len() == 5 && e_smart[i][4] != '0'));
        assert(key_differs(e_smart[i], p));
        lemma_key_discriminates(e_smart[i], p);
    }
}

/// No entry of a default table consulted before TNT's is a prefix of
/// `p + seven zeros` for a prefix `p` of the default TNT table,
/// except the entries that the Smart table also lists.
proof fn lemma_tnt_defaults_unshadowed(p: Seq<char>)
    requires
        tnt_default_prefixes().contains(p),
        p != seq!['0', '9', '4', '6'],
        p != seq!['0', '9', '6', '3'],
        p != seq!['0', '9', '9', '8'],
    ensures
        !table_matches(globe_default_prefixes(), p + zeros7()),
        !table_matches(smart_default_prefixes(), p + zeros7()),
        !table_matches(sun_default_prefixes(), p + zeros7()),
{
    let table = tnt_default_prefixes();
    let j = choose|j: int| 0 <= j < table.len() && table[j] == p;
    assert(p.len() == 4);
    let e_globe = globe_default_prefixes();
    assert forall|i: int| 0 <= i < e_globe.len() implies !(#[trigger] e_globe[i]).is_prefix_of(
        p + zeros7(),
    ) by {
        assert(e_globe[i].len() == 4 || (e_globe[i].len() == 5 && e_globe[i][4] != '0'));
        assert(key_differs(e_globe[i], p));
        lemma_key_discriminates(e_globe[i], p);
    }
    let e_smart = smart_default_prefixes();
    assert forall|i: int| 0 <= i < e_smart.len() implies !(#[trigger] e_smart[i]).is_prefix_of(
        p + zeros7(),
    ) by {
        assert(e_smart[i].len() == 4 || (e_smart[i].len() == 5 && e_smart[i][4] != '0'));
        assert(key_differs(e_smart[i], p));
        lemma_key_discriminates(e_smart[i], p);
    }
    let e_sun = sun_default_prefixes();
    assert forall|i: int| 0 <= i < e_sun.len() implies !(#[trigger] e_sun[i]).is_prefix_of(
        p + zeros7(),
    ) by {
        assert(e_sun[i].len() == 4 || (e_sun[i].len() == 5 && e_sun[i][4] != '0'));
        assert(key_differs(e_sun[i], p));
        lemma_key_discriminates(e_sun[i], p);
    }
}

/// No entry of a default table consulted before Dito's is a prefix of
/// `p + seven zeros` for a prefix `p` of the default Dito table.
proof fn lemma_dito_defaults_unshadowed(p: Seq<char>)
    requires
        dito_default_prefixes().contains(p),
    ensures
        !table_matches(globe_default_prefixes(), p + zeros7()),
        !table_matches(smart_default_prefixes(), p + zeros7()),
        !table_matches(sun_default_prefixes(), p + zeros7()),
        !table_matches(tnt_default_prefixes(), p + zeros7()),
{
    let table = dito_default_prefixes();
    let j = choose|j: int| 0 <= j < table.len() && table[j] == p;
    assert(p.len() == 4);
    let e_globe = globe_default_prefixes();
    assert forall|i: int| 0 <= i < e_globe.len() implies !(#[trigger] e_globe[i]).is_prefix_of(
        p + zeros7(),
    ) by {
        assert(e_globe[i].len() == 4 || (e_globe[i].len() == 5 && e_globe[i][4] != '0'));
        assert(key_differs(e_globe[i], p));
        lemma_key_discriminates(e_globe[i], p);
    }
    let e_smart = smart_default_prefixes();
    assert forall|i: int| 0 <= i < e_smart.len() implies !(#[trigger] e_smart[i]).is_prefix_of(
        p + zeros7(),
    ) by {
        assert(e_smart[i].len() == 4 || (e_smart[i].len() == 5 && e_smart[i][4] != '0'));
        assert(key_differs(e_smart[i], p));
        lemma_key_discriminates(e_smart[i], p);
    }
    let e_sun = sun_default_prefixes();
    assert forall|i: int| 0 <= i < e_sun.len() implies !(#[trigger] e_sun[i]).is_prefix_of(
        p + zeros7(),
    ) by {
        assert(e_sun[i].len() == 4 || (e_sun[i].len() == 5 && e_sun[i][4] != '0'));
        assert(key_differs(e_sun[i], p));
        lemma_key_discriminates(e_sun[i], p);
    }
    let e_tnt = tnt_default_prefixes();
    assert forall|i: int| 0 <= i < e_tnt.len() implies !(#[trigger] e_tnt[i]).is_prefix_of(
        p + zeros7(),
    ) by {
        assert(e_tnt[i].len() == 4 || (e_tnt[i].len() == 5 && e_tnt[i][4] != '0'));
        assert(key_differs(e_tnt[i], p));
        lemma_key_discriminates(e_tnt[i], p);
    }
}

/// Law: with the default tables, a four-digit prefix of the Globe table
/// followed by seven zeros classifies as Globe,
/// and the classified carrier validates that number as `Ok(true)`.
pub proof fn lemma_default_prefix_round_trip_globe(
    reg: Registry,
    p: Seq<char>,
    number: Seq<char>,
    m: MobileNetwork,
    vr: Result<bool, MobileNetworkError>,
)
    requires
        reg.globe_view() == globe_default_prefixes(),
        globe_default_prefixes().contains(p),
        p.len() == 4,
        number == p + zeros7(),
        get_ens(reg, number, Result::<MobileNetwork, MobileNetworkError>::Ok(m)),
        m.validate_ens(number, vr),
    ensures
        m matches MobileNetwork::Globe(v) && v.prefixes() == globe_default_prefixes(),
        vr == Result::<bool, MobileNetworkError>::Ok(true),
{
    let i = choose|i: int| 0 <= i < reg.globe_view().len() && reg.globe_view()[i] == p;
    assert(p.is_prefix_of(number)) by {
        assert(p =~= number.subrange(0, p.len() as int));
    }
    assert(table_matches(reg.globe_view(), number));
    lemma_default_tables_all_digits();
    lemma_table_prefix_validates(globe_default_prefixes(), p, number, vr);
}

/// Law: with the default tables, a four-digit prefix of the Smart table
/// followed by seven zeros classifies as Smart,
/// and the classified carrier validates that number as `Ok(true)`.
pub proof fn lemma_default_prefix_round_trip_smart(
    reg: Registry,
    p: Seq<char>,
    number: Seq<char>,
    m: MobileNetwork,
    vr: Result<bool, MobileNetworkError>,
)
    requires
        reg.globe_view() == globe_default_prefixes(),
        reg.smart_view() == smart_default_prefixes(),
        smart_default_prefixes().contains(p),
        p.len() == 4,
        number == p + zeros7(),
        get_ens(reg, number, Result::<MobileNetwork, MobileNetworkError>::Ok(m)),
        m.validate_ens(number, vr),
    ensures
        m matches MobileNetwork::Smart(v) && v.prefixes() == smart_default_prefixes(),
        vr == Result::<bool, MobileNetworkError>::Ok(true),
{
    lemma_smart_defaults_unshadowed(p);
    let i = choose|i: int| 0 <= i < reg.smart_view().len() && reg.smart_view()[i] == p;
    assert(p.is_prefix_of(number)) by {
        assert(p =~= number.subrange(0, p.len() as int));
    }
    assert(table_matches(reg.smart_view(), number));
    lemma_default_tables_all_digits();
    lemma_table_prefix_validates(smart_default_prefixes(), p, number, vr);
}

/// Law: with the default tables, a four-digit prefix of the Sun table
/// followed by seven zeros classifies as Sun,
/// and the classified carrier validates that number as `Ok(true)`.
pub proof fn lemma_default_prefix_round_trip_sun(
    reg: Registry,
    p: Seq<char>,
    number: Seq<char>,
    m: MobileNetwork,
    vr: Result<bool, MobileNetworkError>,
)
    requires
        reg.globe_view() == globe_default_prefixes(),
        reg.smart_view() == smart_default_prefixes(),
        reg.sun_view() == sun_default_prefixes(),
        sun_default_prefixes().contains(p),
        p.len() == 4,
        number == p + zeros7(),
        get_ens(reg, number, Result::<MobileNetwork, MobileNetworkError>::Ok(m)),
        m.validate_ens(number, vr),
    ensures
        m matches MobileNetwork::Sun(v) && v.prefixes() == sun_default_prefixes(),
        vr == Result::<bool, MobileNetworkError>::Ok(true),
{
    lemma_sun_defaults_unshadowed(p);
    let i = choose|i: int| 0 <= i < reg.sun_view().len() && reg.sun_view()[i] == p;
    assert(p.is_prefix_of(number)) by {
        assert(p =~= number.subrange(0, p.len() as int));
    }
    assert(table_matches(reg.sun_view(), number));
    lemma_default_tables_all_digits();
    lemma_table_prefix_validates(sun_default_prefixes(), p, number, vr);
}

/// Law: with the default tables, a four-digit prefix of the TNT table
/// followed by seven zeros classifies as TNT (except the entries that the
/// Smart table, consulted first, also lists),
/// and the classified carrier validates that number as `Ok(true)`.
pub proof fn lemma_default_prefix_round_trip_tnt(
    reg: Registry,
    p: Seq<char>,
    number: Seq<char>,
    m: MobileNetwork,
    vr: Result<bool, MobileNetworkError>,
)
    requires
        reg.globe_view() == globe_default_prefixes(),
        reg.smart_view() == smart_default_prefixes(),
        reg.sun_view() == sun_default_prefixes(),
        reg.tnt_view() == tnt_default_prefixes(),
        tnt_default_prefixes().contains(p),
        p != seq!['0', '9', '4', '6'],
        p != seq!['0', '9', '6', '3'],
        p != seq!['0', '9', '9', '8'],
        p.len() == 4,
        number == p + zeros7(),
        get_ens(reg, number, Result::<MobileNetwork, MobileNetworkError>::Ok(m)),
        m.validate_ens(number, vr),
    ensures
        m matches MobileNetwork::TNT(v) && v.prefixes() == tnt_default_prefixes(),
        vr == Result::<bool, MobileNetworkError>::Ok(true),
{
    lemma_tnt_defaults_unshadowed(p);
    let i = choose|i: int| 0 <= i < reg.tnt_view().len() && reg.tnt_view()[i] == p;
    assert(p.is_prefix_of(number)) by {
        assert(p =~= number.subrange(0, p.len() as int));
    }
    assert(table_matches(reg.tnt_view(), number));
    lemma_default_tables_all_digits();
    lemma_table_prefix_validates(tnt_default_prefixes(), p, number, vr);
}

/// Law: with the default tables, a four-digit prefix of the Dito table
/// followed by seven zeros classifies as Dito,
/// and the classified carrier validates that number as `Ok(true)`.
pub proof fn lemma_default_prefix_round_trip_dito(
    reg: Registry,
    p: Seq<char>,
    number: Seq<char>,
    m: MobileNetwork,
    vr: Result<bool, MobileNetworkError>,
)
    requires
        reg.globe_view() == globe_default_prefixes(),
        reg.smart_view() == smart_default_prefixes(),
        reg.sun_view() == sun_default_prefixes(),
        reg.tnt_view() == tnt_default_prefixes(),
        reg.dito_view() == dito_default_prefixes(),
        dito_default_prefixes().contains(p),
        p.len() == 4,
        number == p + zeros7(),
        get_ens(reg, number, Result::<MobileNetwork, MobileNetworkError>::Ok(m)),
        m.validate_ens(number, vr),
    ensures
        m matches MobileNetwork::Dito(v) && v.prefixes() == dito_default_prefixes(),
        vr == Result::<bool, MobileNetworkError>::Ok(true),
{
    lemma_dito_defaults_unshadowed(p);
    let i = choose|i: int| 0 <= i < reg.dito_view().len() && reg.dito_view()[i] == p;
    assert(p.is_prefix_of(number)) by {
        assert(p =~= number.subrange(0, p.len() as int));
    }
    assert(table_matches(reg.dito_view(), number));
    lemma_default_tables_all_digits();
    lemma_table_prefix_validates(dito_default_prefixes(), p, number, vr);
}

} // verus!
