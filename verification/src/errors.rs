//! Failure reasons shared by the registry, the pattern builder, the carrier
//! validators and the network classifier.

use vstd::prelude::*;

verus! {

/// Every operation that can fail returns one of these explicit reasons;
/// no failure is ever swallowed or converted into a default result.
#[derive(Debug)]
pub enum MobileNetworkError {
    /// The number is not exactly 11 digits long.
    InvalidLength,
    /// The number contains a character that is not an ASCII digit.
    NonNumeric,
    /// The number (or its leading prefix) is claimed by no carrier table.
    UnrecognizedPrefix(String),
    /// The pattern engine rejected a composed expression.
    RegexError(String),
    /// A carrier table's lock could not be acquired.
    MutexError(String),
}

impl MobileNetworkError {
    /// A human-readable description of the failure, one fixed sentence per
    /// variant, with the diagnostic detail appended where the variant
    /// carries one.
    pub fn message(&self) -> (r: String)
        ensures
            self is InvalidLength ==> r@ == invalid_length_message(),
            self is NonNumeric ==> r@ == non_numeric_message(),
            self matches MobileNetworkError::UnrecognizedPrefix(text) ==> r@ == unrecognized_prefix_message() + text@,
            self matches MobileNetworkError::RegexError(text) ==> r@ == regex_error_message() + text@,
            self matches MobileNetworkError::MutexError(text) ==> r@ == mutex_error_message() + text@,
    {
        match self {
            MobileNetworkError::InvalidLength => {
                "Invalid phone number length. Expected exactly 11 digits.".to_owned()
            },
            MobileNetworkError::NonNumeric => {
                "Mobile number contains non-numeric characters.".to_owned()
            },
            MobileNetworkError::UnrecognizedPrefix(text) => {
                let mut r = "Unrecognized mobile number prefix: ".to_owned();
                r.append(text.as_str());
                r
            },
            MobileNetworkError::RegexError(text) => {
                let mut r = "Regex error ".to_owned();
                r.append(text.as_str());
                r
            },
            MobileNetworkError::MutexError(text) => {
                let mut r = "Mutex lock error ".to_owned();
                r.append(text.as_str());
                r
            },
        }
    }
}

/// The fixed sentence reported for a number of the wrong length.
pub open spec fn invalid_length_message() -> Seq<char> {
    "Invalid phone number length. Expected exactly 11 digits."@
}

/// The fixed sentence reported for a number with a non-digit character.
pub open spec fn non_numeric_message() -> Seq<char> {
    "Mobile number contains non-numeric characters."@
}

/// The fixed heading put before the offending prefix.
pub open spec fn unrecognized_prefix_message() -> Seq<char> {
    "Unrecognized mobile number prefix: "@
}

/// The fixed heading put before a pattern engine's own report.
pub open spec fn regex_error_message() -> Seq<char> {
    "Regex error "@
}

/// The fixed heading put before a lock failure's detail.
pub open spec fn mutex_error_message() -> Seq<char> {
    "Mutex lock error "@
}

} // verus!
