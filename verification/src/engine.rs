//! The policy engine, seen through its parser and the size of what it parsed.
//!
//! The engine's grammar and semantics are not restated here. The parser's
//! verdict on a text is a named function of that text, and a policy set is
//! known only by the number of policies it holds.

use crate::error::Error;
use cedar_policy::{ParseErrors, PolicySet};
use std::str::FromStr;
use vstd::prelude::*;

verus! {

/// A parsed policy set of the engine. Nothing inside it is visible here; it is
/// carried from the parser into the store.
#[verifier::external_type_specification]
#[verifier::external_body]
pub struct ExPolicySet(cedar_policy::PolicySet);

/// The engine's account of why a text is no policy document. It is only ever
/// mapped to [`Error::PolicyParsing`].
#[verifier::external_type_specification]
#[verifier::external_body]
pub struct ExParseErrors(cedar_policy::ParseErrors);

/// What the engine's parser makes of a text: `None` where it rejects the text,
/// else the number of policies in the set that it builds from it.
pub uninterp spec fn parsed_policy_count(text: Seq<char>) -> Option<nat>;

/// The number of policies that a policy set holds.
pub uninterp spec fn policy_count(set: PolicySet) -> nat;

/// What a parse returned, as plain values: the size of the set, or `None` for
/// a rejection.
pub open spec fn parse_view(parsed: Result<PolicySet, ParseErrors>) -> Option<nat> {
    match parsed {
        Ok(set) => Some(policy_count(set)),
        Err(_) => None,
    }
}

/// Calls `<cedar_policy::PolicySet as FromStr>::from_str`. The contract claims
/// that the outcome depends on the text alone: the same text is always either
/// rejected or turned into a set of the same size.
#[verifier::external_body]
fn parse_policy_set(text: &str) -> (parsed: Result<PolicySet, ParseErrors>)
    ensures
        parse_view(parsed) == parsed_policy_count(text@),
{
    PolicySet::from_str(text)
}

/// Calls `cedar_policy::PolicySet::policies` and counts what it yields. The
/// contract claims that this is the size of the set, which `usize` can hold.
#[verifier::external_body]
pub(crate) fn count_policies(set: &PolicySet) -> (n: usize)
    ensures
        n == policy_count(*set),
{
    set.policies().count()
}

/// Parses policy text into a policy set.
///
/// Succeeds exactly on the texts that the engine accepts, with a set of the
/// size that the engine gives for that text; every other text is reported as
/// [`Error::PolicyParsing`].
pub fn parse_policies(policy: &str) -> (parsed: Result<PolicySet, Error>)
    ensures
        match parsed {
            Ok(set) => parsed_policy_count(policy@) == Some(policy_count(set)),
            Err(e) => e == Error::PolicyParsing() && parsed_policy_count(policy@) is None,
        },
{
    match parse_policy_set(policy) {
        Ok(set) => Ok(set),
        Err(_) => Err(Error::PolicyParsing()),
    }
}

} // verus!
