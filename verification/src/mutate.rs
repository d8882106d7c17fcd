//! Reset and append operations on the per-carrier prefix tables. Each
//! operation touches exactly one carrier's table and leaves the others as
//! they were; an append adds the given entries at the end, in order, with no
//! validation of their content (a malformed entry surfaces later, at
//! rule-compile time, or never).

use vstd::prelude::*;

use crate::registry::Registry;

verus! {

/// What appending to the Globe table does: the entries go to the end, in
/// order, and the other four tables are untouched.
pub open spec fn append_globe_ens(o: Registry, n: Registry, ps: Seq<Seq<char>>) -> bool {
    &&& n.globe_view() == o.globe_view() + ps
    &&& n.smart_view() == o.smart_view()
    &&& n.sun_view() == o.sun_view()
    &&& n.tnt_view() == o.tnt_view()
    &&& n.dito_view() == o.dito_view()
}

/// What resetting the Globe table does: it is left empty, and the other
/// four tables are untouched.
pub open spec fn reset_globe_ens(o: Registry, n: Registry) -> bool {
    &&& n.globe_view() == Seq::<Seq<char>>::empty()
    &&& n.smart_view() == o.smart_view()
    &&& n.sun_view() == o.sun_view()
    &&& n.tnt_view() == o.tnt_view()
    &&& n.dito_view() == o.dito_view()
}

/// What appending to the Smart table does: the entries go to the end, in
/// order, and the other four tables are untouched.
pub open spec fn append_smart_ens(o: Registry, n: Registry, ps: Seq<Seq<char>>) -> bool {
    &&& n.smart_view() == o.smart_view() + ps
    &&& n.globe_view() == o.globe_view()
    &&& n.sun_view() == o.sun_view()
    &&& n.tnt_view() == o.tnt_view()
    &&& n.dito_view() == o.dito_view()
}

/// What resetting the Smart table does: it is left empty, and the other
/// four tables are untouched.
pub open spec fn reset_smart_ens(o: Registry, n: Registry) -> bool {
    &&& n.smart_view() == Seq::<Seq<char>>::empty()
    &&& n.globe_view() == o.globe_view()
    &&& n.sun_view() == o.sun_view()
    &&& n.tnt_view() == o.tnt_view()
    &&& n.dito_view() == o.dito_view()
}

/// What appending to the Sun table does: the entries go to the end, in
/// order, and the other four tables are untouched.
pub open spec fn append_sun_ens(o: Registry, n: Registry, ps: Seq<Seq<char>>) -> bool {
    &&& n.sun_view() == o.sun_view() + ps
    &&& n.globe_view() == o.globe_view()
    &&& n.smart_view() == o.smart_view()
    &&& n.tnt_view() == o.tnt_view()
    &&& n.dito_view() == o.dito_view()
}

/// What resetting the Sun table does: it is left empty, and the other
/// four tables are untouched.
pub open spec fn reset_sun_ens(o: Registry, n: Registry) -> bool {
    &&& n.sun_view() == Seq::<Seq<char>>::empty()
    &&& n.globe_view() == o.globe_view()
    &&& n.smart_view() == o.smart_view()
    &&& n.tnt_view() == o.tnt_view()
    &&& n.dito_view() == o.dito_view()
}

/// What appending to the TNT table does: the entries go to the end, in
/// order, and the other four tables are untouched.
pub open spec fn append_tnt_ens(o: Registry, n: Registry, ps: Seq<Seq<char>>) -> bool {
    &&& n.tnt_view() == o.tnt_view() + ps
    &&& n.globe_view() == o.globe_view()
    &&& n.smart_view() == o.smart_view()
    &&& n.sun_view() == o.sun_view()
    &&& n.dito_view() == o.dito_view()
}

/// What resetting the TNT table does: it is left empty, and the other
/// four tables are untouched.
pub open spec fn reset_tnt_ens(o: Registry, n: Registry) -> bool {
    &&& n.tnt_view() == Seq::<Seq<char>>::empty()
    &&& n.globe_view() == o.globe_view()
    &&& n.smart_view() == o.smart_view()
    &&& n.sun_view() == o.sun_view()
    &&& n.dito_view() == o.dito_view()
}

/// What appending to the Dito table does: the entries go to the end, in
/// order, and the other four tables are untouched.
pub open spec fn append_dito_ens(o: Registry, n: Registry, ps: Seq<Seq<char>>) -> bool {
    &&& n.dito_view() == o.dito_view() + ps
    &&& n.globe_view() == o.globe_view()
    &&& n.smart_view() == o.smart_view()
    &&& n.sun_view() == o.sun_view()
    &&& n.tnt_view() == o.tnt_view()
}

/// What resetting the Dito table does: it is left empty, and the other
/// four tables are untouched.
pub open spec fn reset_dito_ens(o: Registry, n: Registry) -> bool {
    &&& n.dito_view() == Seq::<Seq<char>>::empty()
    &&& n.globe_view() == o.globe_view()
    &&& n.smart_view() == o.smart_view()
    &&& n.sun_view() == o.sun_view()
    &&& n.tnt_view() == o.tnt_view()
}

/// Extends the Globe table with the given prefixes, at the end, in order.
pub fn append_globe_prefixes(registry: &mut Registry, prefixes: &Vec<String>)
    ensures
        append_globe_ens(*old(registry), *final(registry), prefixes.deep_view()),
{
    registry.extend_globe(prefixes);
}

/// Extends the Dito table with the given prefixes, at the end, in order.
pub fn append_dito_prefixes(registry: &mut Registry, prefixes: &Vec<String>)
    ensures
        append_dito_ens(*old(registry), *final(registry), prefixes.deep_view()),
{
    registry.extend_dito(prefixes);
}

/// Extends the Smart table with the given prefixes, at the end, in order.
pub fn append_smart_prefixes(registry: &mut Registry, prefixes: &Vec<String>)
    ensures
        append_smart_ens(*old(registry), *final(registry), prefixes.deep_view()),
{
    registry.extend_smart(prefixes);
}

/// Extends the Sun table with the given prefixes, at the end, in order.
pub fn append_sun_prefixes(registry: &mut Registry, prefixes: &Vec<String>)
    ensures
        append_sun_ens(*old(registry), *final(registry), prefixes.deep_view()),
{
    registry.extend_sun(prefixes);
}

/// Extends the TNT table with the given prefixes, at the end, in order.
pub fn append_tnt_prefixes(registry: &mut Registry, prefixes: &Vec<String>)
    ensures
        append_tnt_ens(*old(registry), *final(registry), prefixes.deep_view()),
{
    registry.extend_tnt(prefixes);
}

/// Clears the Globe table.
pub fn reset_globe_prefixes(registry: &mut Registry)
    ensures
        reset_globe_ens(*old(registry), *final(registry)),
{
    registry.clear_globe();
}

/// Clears the Dito table.
pub fn reset_dito_prefixes(registry: &mut Registry)
    ensures
        reset_dito_ens(*old(registry), *final(registry)),
{
    registry.clear_dito();
}

/// Clears the Smart table.
pub fn reset_smart_prefixes(registry: &mut Registry)
    ensures
        reset_smart_ens(*old(registry), *final(registry)),
{
    registry.clear_smart();
}

/// Clears the Sun table.
pub fn reset_sun_prefixes(registry: &mut Registry)
    ensures
        reset_sun_ens(*old(registry), *final(registry)),
{
    registry.clear_sun();
}

/// Clears the TNT table.
pub fn reset_tnt_prefixes(registry: &mut Registry)
    ensures
        reset_tnt_ens(*old(registry), *final(registry)),
{
    registry.clear_tnt();
}

} // verus!
