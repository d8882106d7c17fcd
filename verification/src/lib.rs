//! Classification of Philippine mobile phone numbers by carrier.
//!
//! A per-carrier registry of numeric prefixes determines which carrier owns a
//! number; a validation rule built from the registered prefixes then checks
//! the number against the carrier's format (a registered prefix followed by
//! exactly seven more digits, eleven digits in all).

use vstd::prelude::*;

pub mod dito;
pub mod errors;
pub mod globe;
pub mod laws;
pub mod mobile_network;
pub mod mutate;
pub mod number;
pub mod pattern;
pub mod registry;
pub mod rule;
pub mod smart;
pub mod sun;
pub mod talk_n_text;
pub mod validate;

verus! {

use crate::registry::Registry;

/// Appends one prefix to the end of the Globe table.
pub fn append_globe_prefix(registry: &mut Registry, prefix: String)
    ensures
        final(registry).globe_view() == old(registry).globe_view().push(prefix@),
        final(registry).smart_view() == old(registry).smart_view(),
        final(registry).sun_view() == old(registry).sun_view(),
        final(registry).tnt_view() == old(registry).tnt_view(),
        final(registry).dito_view() == old(registry).dito_view(),
{
    registry.push_globe(prefix);
}

/// Appends one prefix to the end of the Dito table.
pub fn append_dito_prefix(registry: &mut Registry, prefix: String)
    ensures
        final(registry).dito_view() == old(registry).dito_view().push(prefix@),
        final(registry).globe_view() == old(registry).globe_view(),
        final(registry).smart_view() == old(registry).smart_view(),
        final(registry).sun_view() == old(registry).sun_view(),
        final(registry).tnt_view() == old(registry).tnt_view(),
{
    registry.push_dito(prefix);
}

/// Appends one prefix to the end of the Smart table.
pub fn append_smart_prefix(registry: &mut Registry, prefix: String)
    ensures
        final(registry).smart_view() == old(registry).smart_view().push(prefix@),
        final(registry).globe_view() == old(registry).globe_view(),
        final(registry).sun_view() == old(registry).sun_view(),
        final(registry).tnt_view() == old(registry).tnt_view(),
        final(registry).dito_view() == old(registry).dito_view(),
{
    registry.push_smart(prefix);
}

/// Appends one prefix to the end of the Sun table.
pub fn append_sun_prefix(registry: &mut Registry, prefix: String)
    ensures
        final(registry).sun_view() == old(registry).sun_view().push(prefix@),
        final(registry).globe_view() == old(registry).globe_view(),
        final(registry).smart_view() == old(registry).smart_view(),
        final(registry).tnt_view() == old(registry).tnt_view(),
        final(registry).dito_view() == old(registry).dito_view(),
{
    registry.push_sun(prefix);
}

/// Appends one prefix to the end of the TNT table.
pub fn append_tnt_prefix(registry: &mut Registry, prefix: String)
    ensures
        final(registry).tnt_view() == old(registry).tnt_view().push(prefix@),
        final(registry).globe_view() == old(registry).globe_view(),
        final(registry).smart_view() == old(registry).smart_view(),
        final(registry).sun_view() == old(registry).sun_view(),
        final(registry).dito_view() == old(registry).dito_view(),
{
    registry.push_tnt(prefix);
}

} // verus!
