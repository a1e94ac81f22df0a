//! The security rules. Each rule decides a boolean predicate over an input
//! string: whitelist (substring containment allows), blacklist (substring
//! containment denies), and regular expression (a match allows). A rule is
//! immutable after construction and its decision is a pure function of the
//! rule's stored data and the input.

use vstd::prelude::*;

use crate::regex_engine::{compiled_pattern, regex_is_match, regex_match, regex_new, regex_valid};
use crate::substring::{contains_substr, lemma_empty_pattern_contained, str_contains};

verus! {

/// A rule decides each input string; `spec_eval` is the predicate it
/// decides, and `parse` computes exactly that predicate.
pub trait SecurityRule {
    /// The predicate this rule decides, over the input's characters.
    spec fn spec_eval(&self, input: Seq<char>) -> bool;

    /// Decide this rule on one input. Total: it never fails on a
    /// constructed rule.
    fn parse(&self, input: &str) -> (r: bool)
        ensures
            r == self.spec_eval(input@),
    ;
}

/// Accepts exactly the inputs that contain the stored pattern as a
/// substring.
pub struct WhitelistRule {
    pattern: String,
}

/// Accepts exactly the inputs that do not contain the stored pattern as a
/// substring.
pub struct BlacklistRule {
    pattern: String,
}

/// Accepts exactly the inputs that the stored compiled regular expression
/// matches. Compilation happens once, at construction.
pub struct RegexRule {
    compiled: regex::Regex,
}

/// The error of regular-expression rule construction: the supplied pattern
/// text does not compile under the engine's grammar. A configuration-time
/// error for whoever authors the rule set, never a match-time outcome.
#[derive(Debug)]
pub struct InvalidPatternError;

impl WhitelistRule {
    /// The pattern this rule was built with.
    pub closed spec fn spec_pattern(&self) -> Seq<char> {
        self.pattern@
    }

    /// Builds a whitelist rule; any pattern text is allowed.
    pub fn new(pattern: String) -> (r: WhitelistRule)
        ensures
            r.spec_pattern() == pattern@,
    {
        WhitelistRule { pattern }
    }
}

impl SecurityRule for WhitelistRule {
    open spec fn spec_eval(&self, input: Seq<char>) -> bool {
        contains_substr(input, self.spec_pattern())
    }

    fn parse(&self, input: &str) -> (r: bool) {
        str_contains(input, self.pattern.as_str())
    }
}

impl BlacklistRule {
    /// The pattern this rule was built with.
    pub closed spec fn spec_pattern(&self) -> Seq<char> {
        self.pattern@
    }

    /// Builds a blacklist rule; any pattern text is allowed.
    pub fn new(pattern: String) -> (r: BlacklistRule)
        ensures
            r.spec_pattern() == pattern@,
    {
        BlacklistRule { pattern }
    }
}

impl SecurityRule for BlacklistRule {
    open spec fn spec_eval(&self, input: Seq<char>) -> bool {
        !contains_substr(input, self.spec_pattern())
    }

    fn parse(&self, input: &str) -> (r: bool) {
        !str_contains(input, self.pattern.as_str())
    }
}

impl RegexRule {
    /// The pattern text the stored regular expression was compiled from.
    pub closed spec fn spec_pattern(&self) -> Seq<char> {
        compiled_pattern(self.compiled)
    }

    /// Compiles `pattern` and builds the rule. Fails with
    /// `InvalidPatternError` exactly when the engine rejects the pattern
    /// text, so an invalid pattern can never yield a constructed rule.
    pub fn new(pattern: &str) -> (r: Result<RegexRule, InvalidPatternError>)
        ensures
            r is Ok <==> regex_valid(pattern@),
            r matches Ok(rule) ==> rule.spec_pattern() == pattern@,
    {
        match regex_new(pattern) {
            Ok(compiled) => Ok(RegexRule { compiled }),
            Err(_) => Err(InvalidPatternError),
        }
    }
}

impl SecurityRule for RegexRule {
    open spec fn spec_eval(&self, input: Seq<char>) -> bool {
        regex_match(self.spec_pattern(), input)
    }

    fn parse(&self, input: &str) -> (r: bool) {
        regex_is_match(&self.compiled, input)
    }
}

/// One of the three rule variants, under the common capability, so that a
/// chain can hold and evaluate rules of different kinds uniformly.
pub enum RuleType {
    Whitelist(WhitelistRule),
    Blacklist(BlacklistRule),
    Regex(RegexRule),
}

impl SecurityRule for RuleType {
    open spec fn spec_eval(&self, input: Seq<char>) -> bool {
        match self {
            RuleType::Whitelist(rule) => rule.spec_eval(input),
            RuleType::Blacklist(rule) => rule.spec_eval(input),
            RuleType::Regex(rule) => rule.spec_eval(input),
        }
    }

    fn parse(&self, input: &str) -> (r: bool) {
        match self {
            RuleType::Whitelist(rule) => rule.parse(input),
            RuleType::Blacklist(rule) => rule.parse(input),
            RuleType::Regex(rule) => rule.parse(input),
        }
    }
}

/// Law: a whitelist and a blacklist built with the same pattern decide
/// opposite results on every input — they are logical negations of the
/// same containment predicate.
pub proof fn lemma_whitelist_blacklist_opposite(
    w: WhitelistRule,
    b: BlacklistRule,
    input: Seq<char>,
)
    requires
        w.spec_pattern() == b.spec_pattern(),
    ensures
        w.spec_eval(input) == !b.spec_eval(input),
{
}

/// Law: with the empty pattern, a whitelist accepts every input and a
/// blacklist rejects every input, since the empty pattern occurs in every
/// string — the empty input included.
pub proof fn lemma_empty_pattern_rules(w: WhitelistRule, b: BlacklistRule, input: Seq<char>)
    requires
        w.spec_pattern() == Seq::<char>::empty(),
        b.spec_pattern() == Seq::<char>::empty(),
    ensures
        w.spec_eval(input),
        !b.spec_eval(input),
{
    lemma_empty_pattern_contained(input);
}

} // verus!
