use vstd::prelude::*;

use crate::models::{copy_rules, Rule, WarpRulesError};

verus! {

/// The current rule set, replaced whole by the monitor and read by the
/// evaluation path.
#[derive(Debug)]
pub struct RuleStore {
    pub rules: Vec<Rule>,
}

impl RuleStore {
    /// A store with no rules.
    pub fn new() -> (r: Self)
        ensures
            r.rules@.len() == 0,
    {
        RuleStore { rules: Vec::new() }
    }

    /// Replaces the stored rules with `rules`.
    pub fn load_rules(&mut self, rules: Vec<Rule>)
        ensures
            final(self).rules@ == rules@,
    {
        self.rules = rules;
    }

    /// A copy of the stored rules.
    pub fn current(&self) -> (r: Vec<Rule>)
        ensures
            r@ == self.rules@,
    {
        copy_rules(&self.rules)
    }

    /// Number of stored rules.
    pub fn len(&self) -> (r: usize)
        ensures
            r == self.rules@.len(),
    {
        self.rules.len()
    }
}

/// The error given when the rule store cannot be locked.
pub fn store_unavailable() -> (r: WarpRulesError)
    ensures
        r == WarpRulesError::RuleProcessing(r->RuleProcessing_0),
        r->RuleProcessing_0@ == "failed to lock the rule store"@,
{
    WarpRulesError::RuleProcessing(String::from_str("failed to lock the rule store"))
}

/// The error given when the rule store cannot be locked while the client is
/// being set up.
pub fn store_unavailable_at_setup() -> (r: WarpRulesError)
    ensures
        r == WarpRulesError::Unknown(r->Unknown_0),
        r->Unknown_0@ == "failed to lock the rule store"@,
{
    WarpRulesError::Unknown(String::from_str("failed to lock the rule store"))
}

} // verus!
