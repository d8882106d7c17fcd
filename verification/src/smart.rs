//! The Smart carrier validator: a validation rule built from one snapshot of
//! the Smart prefix table.

use vstd::prelude::*;

use crate::errors::MobileNetworkError;
use crate::rule::{rule_buildable, Rule};
use crate::validate::{rule_validate_ens, validate_with_rule, Validate};

verus! {

/// A Smart validator; it owns the rule compiled from the table snapshot it
/// was built with.
pub struct Smart(Rule);

impl Smart {
    /// The table snapshot this validator's rule was built from.
    pub closed spec fn prefixes(&self) -> Seq<Seq<char>> {
        self.0.prefixes()
    }

    /// Builds a Smart validator from a snapshot of the Smart table.
    pub fn new(prefixes: &Vec<String>) -> (r: Result<Smart, MobileNetworkError>)
        ensures
            r is Ok <==> rule_buildable(prefixes.deep_view()),
            r matches Ok(v) ==> v.prefixes() == prefixes.deep_view(),
            r matches Err(e) ==> e is RegexError,
    {
        match Rule::new(prefixes) {
            Ok(rule) => Ok(Smart(rule)),
            Err(e) => Err(e),
        }
    }
}

impl Validate for Smart {
    open spec fn validate_ens(&self, number: Seq<char>, r: Result<bool, MobileNetworkError>) -> bool {
        rule_validate_ens(self.prefixes(), number, r)
    }

    fn validate(&self, number: &str) -> (r: Result<bool, MobileNetworkError>) {
        validate_with_rule(&self.0, number)
    }
}

} // verus!
