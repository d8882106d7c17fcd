//! The network classifier: consults the five carrier tables in the fixed
//! order Globe, Smart, Sun, TNT, Dito (the first matching table wins) and
//! builds the matching carrier's validator from that table's current
//! contents. The rule is recomputed from the table on every classification,
//! so the latest mutations are always reflected.

use vstd::prelude::*;

use crate::dito::Dito;
use crate::errors::MobileNetworkError;
use crate::globe::Globe;
use crate::number::{table_contains_prefix_of, table_matches};
use crate::registry::Registry;
use crate::rule::rule_buildable;
use crate::smart::Smart;
use crate::sun::Sun;
use crate::talk_n_text::TNT;
use crate::validate::{rule_validate_ens, Validate};

verus! {

/// A classified number's carrier, holding the validator built for it; or the
/// transient `Invalid` placeholder carrying a diagnostic.
pub enum MobileNetwork {
    Globe(Globe),
    Smart(Smart),
    Sun(Sun),
    TNT(TNT),
    Dito(Dito),
    Invalid(String),
}

/// The first `min(4, |number|)` characters of the number: the diagnostic
/// prefix reported when no table claims the number.
pub open spec fn lookup_key(number: Seq<char>) -> Seq<char> {
    if number.len() < 4 {
        number
    } else {
        number.subrange(0, 4)
    }
}

/// What classification returns: the first table (in the fixed order) with an
/// entry that leads the number decides the carrier, whose validator is built
/// from that table's current contents unless the pattern engine rejects the
/// composed pattern; when no table claims the number, the lookup key is
/// reported as unrecognized.
pub open spec fn get_ens(
    reg: Registry,
    number: Seq<char>,
    r: Result<MobileNetwork, MobileNetworkError>,
) -> bool {
    let globe = table_matches(reg.globe_view(), number);
    let smart = table_matches(reg.smart_view(), number);
    let sun = table_matches(reg.sun_view(), number);
    let tnt = table_matches(reg.tnt_view(), number);
    let dito = table_matches(reg.dito_view(), number);
    &&& globe ==> ({
        if rule_buildable(reg.globe_view()) {
            r matches Ok(n) && n matches MobileNetwork::Globe(v) && v.prefixes() == reg.globe_view()
        } else {
            r matches Err(e) && e is RegexError
        }
    })
    &&& !globe && smart ==> ({
        if rule_buildable(reg.smart_view()) {
            r matches Ok(n) && n matches MobileNetwork::Smart(v) && v.prefixes() == reg.smart_view()
        } else {
            r matches Err(e) && e is RegexError
        }
    })
    &&& !globe && !smart && sun ==> ({
        if rule_buildable(reg.sun_view()) {
            r matches Ok(n) && n matches MobileNetwork::Sun(v) && v.prefixes() == reg.sun_view()
        } else {
            r matches Err(e) && e is RegexError
        }
    })
    &&& !globe && !smart && !sun && tnt ==> ({
        if rule_buildable(reg.tnt_view()) {
            r matches Ok(n) && n matches MobileNetwork::TNT(v) && v.prefixes() == reg.tnt_view()
        } else {
            r matches Err(e) && e is RegexError
        }
    })
    &&& !globe && !smart && !sun && !tnt && dito ==> ({
        if rule_buildable(reg.dito_view()) {
            r matches Ok(n) && n matches MobileNetwork::Dito(v) && v.prefixes() == reg.dito_view()
        } else {
            r matches Err(e) && e is RegexError
        }
    })
    &&& !globe && !smart && !sun && !tnt && !dito ==> (r matches Err(e)
        && e matches MobileNetworkError::UnrecognizedPrefix(text) && text@ == lookup_key(number))
}

impl MobileNetwork {
    /// Classifies a number by consulting the carrier tables in the fixed
    /// order and building the winning carrier's validator from that table's
    /// current contents.
    pub fn get(number: &str, registry: &Registry) -> (r: Result<
        MobileNetwork,
        MobileNetworkError,
    >)
        ensures
            get_ens(*registry, number@, r),
    {
        if table_contains_prefix_of(registry.globe_prefixes(), number) {
            match Globe::new(registry.globe_prefixes()) {
                Ok(v) => Ok(MobileNetwork::Globe(v)),
                Err(e) => Err(e),
            }
        } else if table_contains_prefix_of(registry.smart_prefixes(), number) {
            match Smart::new(registry.smart_prefixes()) {
                Ok(v) => Ok(MobileNetwork::Smart(v)),
                Err(e) => Err(e),
            }
        } else if table_contains_prefix_of(registry.sun_prefixes(), number) {
            match Sun::new(registry.sun_prefixes()) {
                Ok(v) => Ok(MobileNetwork::Sun(v)),
                Err(e) => Err(e),
            }
        } else if table_contains_prefix_of(registry.tnt_prefixes(), number) {
            match TNT::new(registry.tnt_prefixes()) {
                Ok(v) => Ok(MobileNetwork::TNT(v)),
                Err(e) => Err(e),
            }
        } else if table_contains_prefix_of(registry.dito_prefixes(), number) {
            match Dito::new(registry.dito_prefixes()) {
                Ok(v) => Ok(MobileNetwork::Dito(v)),
                Err(e) => Err(e),
            }
        } else {
            let len = number.unicode_len();
            let key = if len < 4 {
                number.substring_char(0, len)
            } else {
                number.substring_char(0, 4)
            };
            proof {
                assert(number@.subrange(0, number@.len() as int) =~= number@);
            }
            Err(MobileNetworkError::UnrecognizedPrefix(key.to_owned()))
        }
    }

    /// The lowercase carrier name, or `invalid (<reason>)` for the
    /// placeholder variant.
    pub fn to_string(&self) -> (r: String)
        ensures
            self is Globe ==> r@ == "globe"@,
            self is Smart ==> r@ == "smart"@,
            self is Sun ==> r@ == "sun"@,
            self is TNT ==> r@ == "tnt"@,
            self is Dito ==> r@ == "dito"@,
            self matches MobileNetwork::Invalid(reason) ==> r@ == "invalid ("@ + reason@ + ")"@,
    {
        match self {
            MobileNetwork::Globe(_) => "globe".to_owned(),
            MobileNetwork::Smart(_) => "smart".to_owned(),
            MobileNetwork::Sun(_) => "sun".to_owned(),
            MobileNetwork::TNT(_) => "tnt".to_owned(),
            MobileNetwork::Dito(_) => "dito".to_owned(),
            MobileNetwork::Invalid(reason) => {
                let mut r = "invalid (".to_owned();
                r.append(reason.as_str());
                r.append(")");
                r
            },
        }
    }
}

impl Validate for MobileNetwork {
    open spec fn validate_ens(&self, number: Seq<char>, r: Result<bool, MobileNetworkError>) -> bool {
        match *self {
            MobileNetwork::Globe(v) => rule_validate_ens(v.prefixes(), number, r),
            MobileNetwork::Smart(v) => rule_validate_ens(v.prefixes(), number, r),
            MobileNetwork::Sun(v) => rule_validate_ens(v.prefixes(), number, r),
            MobileNetwork::TNT(v) => rule_validate_ens(v.prefixes(), number, r),
            MobileNetwork::Dito(v) => rule_validate_ens(v.prefixes(), number, r),
            MobileNetwork::Invalid(text) => r matches Result::Err(e)
                && e matches MobileNetworkError::UnrecognizedPrefix(t) && t@ == text@,
        }
    }

    fn validate(&self, number: &str) -> (r: Result<bool, MobileNetworkError>) {
        match self {
            MobileNetwork::Globe(v) => v.validate(number),
            MobileNetwork::Smart(v) => v.validate(number),
            MobileNetwork::Sun(v) => v.validate(number),
            MobileNetwork::TNT(v) => v.validate(number),
            MobileNetwork::Dito(v) => v.validate(number),
            MobileNetwork::Invalid(text) => Err(
                MobileNetworkError::UnrecognizedPrefix(text.clone()),
            ),
        }
    }
}

} // verus!
