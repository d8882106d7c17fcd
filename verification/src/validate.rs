//! The shared validation contract: every carrier validator checks a number
//! the same way, in this order: every character must be an ASCII digit
//! (`NonNumeric` otherwise), the length must be exactly 11 (`InvalidLength`
//! otherwise), and the number must match the carrier's rule. A number that
//! passes the first two checks but misses the rule is reported as
//! `UnrecognizedPrefix` carrying the number itself; this library applies that
//! policy uniformly across all carriers.

use vstd::prelude::*;

use crate::errors::MobileNetworkError;
use crate::number::{all_ascii_digits, all_digits, digit_table, matches_prefix_rule};
use crate::rule::{rule_match, Rule};

verus! {

/// What validating a number against a rule built from the table snapshot
/// `ps` returns.
pub open spec fn rule_validate_ens(
    ps: Seq<Seq<char>>,
    number: Seq<char>,
    r: Result<bool, MobileNetworkError>,
) -> bool {
    &&& !all_digits(number) ==> r == Result::<bool, MobileNetworkError>::Err(
        MobileNetworkError::NonNumeric,
    )
    &&& all_digits(number) && number.len() != 11 ==> r == Result::<
        bool,
        MobileNetworkError,
    >::Err(MobileNetworkError::InvalidLength)
    &&& all_digits(number) && number.len() == 11 && rule_match(ps, number) ==> r == Result::<
        bool,
        MobileNetworkError,
    >::Ok(true)
    &&& all_digits(number) && number.len() == 11 && !rule_match(ps, number) ==> (r matches Result::Err(e)
        && e matches MobileNetworkError::UnrecognizedPrefix(text) && text@ == number)
    &&& all_digits(number) && number.len() == 11 && digit_table(ps) ==> (r == Result::<
        bool,
        MobileNetworkError,
    >::Ok(true) <==> matches_prefix_rule(ps, number))
}

/// Format-checks a number against one rule, in the fixed order: digits,
/// exact length 11, rule match.
pub(crate) fn validate_with_rule(rule: &Rule, number: &str) -> (r: Result<
    bool,
    MobileNetworkError,
>)
    ensures
        rule_validate_ens(rule.prefixes(), number@, r),
{
    if !all_ascii_digits(number) {
        return Err(MobileNetworkError::NonNumeric);
    }
    if number.unicode_len() != 11 {
        return Err(MobileNetworkError::InvalidLength);
    }
    if rule.matches(number) {
        Ok(true)
    } else {
        Err(MobileNetworkError::UnrecognizedPrefix(number.to_owned()))
    }
}

/// Format validation offered by every carrier (and by a classified network):
/// `validate` returns whatever this implementation's `validate_ens` admits.
pub trait Validate {
    /// The exact contract that `validate` meets for this implementation.
    spec fn validate_ens(&self, number: Seq<char>, r: Result<bool, MobileNetworkError>) -> bool;

    /// Checks a number's format and reports the first failure, if any.
    fn validate(&self, number: &str) -> (r: Result<bool, MobileNetworkError>)
        ensures
            self.validate_ens(number@, r),
    ;
}

} // verus!
