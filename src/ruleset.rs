//! Categorization rulesets: validation and the row to store.
use vstd::prelude::*;

use crate::codec::{encode_rules, encode_rules_spec};
use crate::error::{is_bad_request, DatastoreError};
use crate::model::{Rule, RulesetRow};

verus! {

/// A rule names at least one category and has a non-empty pattern.
pub open spec fn valid_rule(r: Rule) -> bool {
    r.name@.len() > 0 && r.regex@.len() > 0
}

/// A ruleset holds at least one rule, and every rule is valid.
pub open spec fn valid_rules(rs: Seq<Rule>) -> bool {
    rs.len() > 0 && forall|i: int| 0 <= i < rs.len() ==> valid_rule(#[trigger] rs[i])
}

/// Whether one rule is valid.
fn check_rule(r: &Rule) -> (ok: bool)
    ensures
        ok == valid_rule(*r),
{
    r.name.len() > 0 && !r.regex.as_str().is_empty()
}

/// Validates a new ruleset and gives the row to store.
///
/// An empty rule list, a rule without labels and a rule with an empty pattern
/// are each rejected as a bad request.
pub fn ruleset_row(user_id: i64, name: &str, rules: &Vec<Rule>) -> (r: Result<RulesetRow, DatastoreError>)
    ensures
        r is Ok <==> valid_rules(rules@),
        rules@.len() == 0 ==> is_bad_request(r, "a ruleset needs at least one rule"@),
        rules@.len() > 0 && !valid_rules(rules@) ==> is_bad_request(
            r,
            "each rule needs a category and a non-empty pattern"@,
        ),
        r matches Ok(row) ==> row.user_id == user_id && row.name@ == name@ && row.rules@
            == encode_rules_spec(rules@),
{
    if rules.len() == 0 {
        return Err(DatastoreError::BadRequest(String::from_str("a ruleset needs at least one rule")));
    }
    let mut i: usize = 0;
    while i < rules.len()
        invariant
            i <= rules@.len(),
            forall|j: int| 0 <= j < i ==> valid_rule(#[trigger] rules@[j]),
        decreases rules@.len() - i,
    {
        if !check_rule(&rules[i]) {
            return Err(
                DatastoreError::BadRequest(
                    String::from_str("each rule needs a category and a non-empty pattern"),
                ),
            );
        }
        i = i + 1;
    }
    Ok(RulesetRow { user_id, name: String::from_str(name), rules: encode_rules(rules) })
}

} // verus!
