//! The chain evaluator: an ordered sequence of rules, evaluated against one
//! input as a short-circuiting logical AND. Insertion order is evaluation
//! order; the chain owns its rules and is reusable across evaluations.

use vstd::prelude::*;

use crate::rules::{RuleType, SecurityRule};

verus! {

/// The chain accepts the input when every rule in it evaluates to true on
/// that input; over an empty sequence this holds vacuously.
pub open spec fn chain_accepts(rules: Seq<RuleType>, input: Seq<char>) -> bool {
    forall|i: int| 0 <= i < rules.len() ==> #[trigger] rules[i].spec_eval(input)
}

/// Holds an ordered rule sequence and accepts an input only when all rules
/// pass.
pub struct SecurityTool {
    rules: Vec<RuleType>,
}

impl SecurityTool {
    /// The rules of this chain, in evaluation order.
    pub closed spec fn spec_rules(&self) -> Seq<RuleType> {
        self.rules@
    }

    /// Whether this chain accepts the input.
    pub open spec fn spec_accepts(&self, input: Seq<char>) -> bool {
        chain_accepts(self.spec_rules(), input)
    }

    /// An empty chain: with no rules, any input is accepted.
    pub fn new() -> (r: SecurityTool)
        ensures
            r.spec_rules() == Seq::<RuleType>::empty(),
    {
        SecurityTool { rules: Vec::new() }
    }

    /// Appends `rule` at the end of the sequence. No duplicate detection:
    /// each copy added is evaluated independently.
    pub fn add_rule(&mut self, rule: RuleType)
        ensures
            final(self).spec_rules() == old(self).spec_rules().push(rule),
    {
        self.rules.push(rule);
    }

    /// Evaluates the rules in insertion order; stops at the first rule that
    /// rejects (short-circuit) and then answers false; answers true when
    /// every rule passes, the empty chain included. Never fails.
    pub fn parse_input(&self, input: &str) -> (r: bool)
        ensures
            r == self.spec_accepts(input@),
    {
        let mut i: usize = 0;
        while i < self.rules.len()
            invariant
                i <= self.rules.len(),
                forall|j: int| 0 <= j < i ==> #[trigger] self.rules@[j].spec_eval(input@),
            decreases self.rules.len() - i,
        {
            if !self.rules[i].parse(input) {
                return false;
            }
            i = i + 1;
        }
        true
    }
}

/// Law: a chain without rules accepts every input — vacuous truth over the
/// empty rule set.
pub proof fn lemma_empty_chain_accepts(tool: SecurityTool, input: Seq<char>)
    requires
        tool.spec_rules() == Seq::<RuleType>::empty(),
    ensures
        tool.spec_accepts(input),
{
}

/// Law: if any one rule of the chain rejects the input, the whole chain
/// rejects it, whatever every other rule would decide. In particular, a
/// chain whose first rule rejects answers false regardless of the rules
/// behind it.
pub proof fn lemma_rejecting_rule_rejects_chain(rules: Seq<RuleType>, i: int, input: Seq<char>)
    requires
        0 <= i < rules.len(),
        !rules[i].spec_eval(input),
    ensures
        !chain_accepts(rules, input),
{
}

} // verus!
