//! The TNT carrier validator: a validation rule built from one snapshot of
//! the TNT prefix table.

use vstd::prelude::*;

use crate::errors::MobileNetworkError;
use crate::rule::{rule_buildable, Rule};
use crate::validate::{rule_validate_ens, validate_with_rule, Validate};

verus! {

/// A TNT validator; it owns the rule compiled from the table snapshot it
/// was built with.
pub struct TNT(Rule);

impl TNT {
    /// The table snapshot this validator's rule was built from.
    pub closed spec fn prefixes(&self) -> Seq<Seq<char>> {
        self.0.prefixes()
    }

    /// Builds a TNT validator from a snapshot of the TNT table.
    pub fn new(prefixes: &Vec<String>) -> (r: Result<TNT, MobileNetworkError>)
        ensures
            r is Ok <==> rule_buildable(prefixes.deep_view()),
            r matches Ok(v) ==> v.prefixes() == prefixes.deep_view(),
            r matches Err(e) ==> e is RegexError,
    {
        match Rule::new(prefixes) {
            Ok(rule) => Ok(TNT(rule)),
            Err(e) => Err(e),
        }
    }
}

impl Validate for TNT {
    open spec fn validate_ens(&self, number: Seq<char>, r: Result<bool, MobileNetworkError>) -> bool {
        rule_validate_ens(self.prefixes(), number, r)
    }

    fn validate(&self, number: &str) -> (r: Result<bool, MobileNetworkError>) {
        validate_with_rule(&self.0, number)
    }
}

} // verus!
