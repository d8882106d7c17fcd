//! A validation rule: the compiled form of `^(p1|...|pn)\d{7}$` for one
//! snapshot of a carrier's prefix table. A rule is built fresh for each
//! classification and discarded afterwards; it never outlives the call that
//! made it.
//!
//! The pattern engine is the `regex` crate. Its calls stand behind the
//! trusted items in this module; everything around them is verified.

use vstd::prelude::*;

use crate::errors::MobileNetworkError;
use crate::number::{all_digits, digit_table, matches_prefix_rule};
use crate::pattern::{generate_pattern, spec_pattern};

verus! {

#[verifier::external_type_specification]
#[verifier::external_body]
pub struct ExRegex(regex::Regex);

#[verifier::external_type_specification]
#[verifier::external_body]
pub struct ExRegexError(regex::Error);

/// What `regex::Regex::is_match` returns for a given pattern and haystack:
/// a function of the two texts alone.
pub uninterp spec fn regex_match(pattern: Seq<char>, text: Seq<char>) -> bool;

/// Whether `regex::Regex::new` accepts a given pattern text: a function of
/// the text alone (the engine's syntax and default size limit are fixed).
pub uninterp spec fn regex_compiles(pattern: Seq<char>) -> bool;

/// A compiled pattern, paired with the text it was compiled from. Values are
/// built by `compile_pattern` alone, so the engine's state in `regex` always
/// belongs to the text recorded in `pattern`.
struct Compiled {
    regex: regex::Regex,
    pattern: Ghost<Seq<char>>,
}

/// Relies on `regex::Regex::new`: whether it accepts the pattern (valid
/// syntax, within the default size limit) is a function of the pattern text
/// alone; on rejection it reports why, and it does not panic.
#[verifier::external_body]
fn regex_new(pattern: &str) -> (r: Result<regex::Regex, regex::Error>)
    ensures
        r is Ok <==> regex_compiles(pattern@),
{
    regex::Regex::new(pattern)
}

/// Compiles the pattern text and records, alongside the engine's state, the
/// text it was compiled from.
fn compile_pattern(pattern: &str) -> (r: Result<Compiled, regex::Error>)
    ensures
        r is Ok <==> regex_compiles(pattern@),
        r matches Ok(c) ==> c.pattern@ == pattern@,
{
    match regex_new(pattern) {
        Ok(regex) => Ok(Compiled { regex, pattern: Ghost(pattern@) }),
        Err(e) => Err(e),
    }
}

/// Relies on `regex::Regex::is_match`: whether the anchored pattern matches
/// the haystack is a function of the pattern and haystack texts alone; and on
/// the documented meaning of `^`, `(|)`, `\d{7}` and `$`: for a pattern built
/// by `spec_pattern` from one or more digit-only prefixes, an all-digit
/// haystack matches exactly when it is one of those prefixes followed by
/// exactly seven more digits. (The second clause quantifies over every table
/// that composes this pattern; digit-only tables never collide there, since
/// `|`, which no digit-only entry can contain, separates the entries
/// unambiguously.)
#[verifier::external_body]
fn compiled_is_match(c: &Compiled, text: &str) -> (r: bool)
    requires
        all_digits(text@),
    ensures
        r == regex_match(c.pattern@, text@),
        forall|ps: Seq<Seq<char>>|
            ps.len() > 0 && digit_table(ps) && c.pattern@ == #[trigger] spec_pattern(ps)
                ==> r == matches_prefix_rule(ps, text@),
{
    c.regex.is_match(text)
}

/// Relies on `regex::Error`'s `Display` implementation (through
/// `ToString::to_string`) for the engine's own description of the failure.
#[verifier::external_body]
fn regex_error_text(e: &regex::Error) -> String {
    e.to_string()
}

/// A rule either compiled from a non-empty table snapshot, or the rule of an
/// empty snapshot, which deterministically matches nothing.
pub struct Rule {
    matcher: Option<Compiled>,
    table: Ghost<Seq<Seq<char>>>,
}

impl Rule {
    #[verifier::type_invariant]
    spec fn wf(self) -> bool {
        match self.matcher {
            Option::None => self.table@.len() == 0,
            Option::Some(c) => self.table@.len() > 0 && c.pattern@ == spec_pattern(self.table@),
        }
    }

    /// The table snapshot this rule was built from.
    pub closed spec fn prefixes(self) -> Seq<Seq<char>> {
        self.table@
    }

    /// Builds the rule for a snapshot of a carrier's table. An empty snapshot
    /// yields the rule that matches nothing; otherwise the composed pattern
    /// is handed to the engine, whose rejection (which well-formed digit
    /// prefixes do not provoke) is surfaced as `RegexError`.
    pub fn new(prefixes: &Vec<String>) -> (r: Result<Rule, MobileNetworkError>)
        ensures
            r is Ok <==> rule_buildable(prefixes.deep_view()),
            r matches Ok(rule) ==> rule.prefixes() == prefixes.deep_view(),
            r matches Err(e) ==> e is RegexError,
    {
        if prefixes.is_empty() {
            assert(prefixes.deep_view().len() == 0);
            return Ok(Rule { matcher: None, table: Ghost(prefixes.deep_view()) });
        }
        let pattern = match generate_pattern(prefixes) {
            Ok(pattern) => pattern,
            // Composition cannot fail; its contract makes this arm dead.
            Err(e) => {
                return Err(e);
            },
        };
        match compile_pattern(pattern.as_str()) {
            Ok(c) => Ok(Rule { matcher: Some(c), table: Ghost(prefixes.deep_view()) }),
            Err(e) => Err(MobileNetworkError::RegexError(regex_error_text(&e))),
        }
    }

    /// Whether the rule matches an all-digit number. The rule of an empty
    /// table matches nothing; any other rule answers as the engine does,
    /// which for a digit-only table means "some table entry followed by
    /// exactly seven more digits".
    pub fn matches(&self, number: &str) -> (r: bool)
        requires
            all_digits(number@),
        ensures
            r == rule_match(self.prefixes(), number@),
            digit_table(self.prefixes()) ==> r == matches_prefix_rule(self.prefixes(), number@),
    {
        proof {
            use_type_invariant(&*self);
        }
        match &self.matcher {
            None => false,
            Some(c) => compiled_is_match(c, number),
        }
    }
}

/// What `Rule::matches` returns: nothing matches an empty table's rule, and
/// otherwise the engine decides the pattern built from the table.
pub open spec fn rule_match(ps: Seq<Seq<char>>, number: Seq<char>) -> bool {
    ps.len() > 0 && regex_match(spec_pattern(ps), number)
}

/// Whether a rule can be built from the table snapshot: the empty snapshot
/// always can (no pattern is compiled for it), any other exactly when the
/// engine accepts its composed pattern.
pub open spec fn rule_buildable(ps: Seq<Seq<char>>) -> bool {
    ps.len() == 0 || regex_compiles(spec_pattern(ps))
}

} // verus!
