//! The redaction pipeline's rule model: a selector into a structured value
//! paired with one of three interchangeable strategies. Strategy application
//! (selector matching and value rewriting) is delegated to the snapshot
//! library; this module owns the rule data and the boundary decision that
//! classifies a dynamic strategy argument.

use vstd::prelude::*;
use crate::errors::SnapError;

verus! {

/// One of the three redaction strategies: canonical ordering of a sequence,
/// rounding a number to a digit count, or unconditional replacement by a
/// literal placeholder.
#[derive(Debug, Clone, PartialEq, Eq)]
pub enum RedactionType {
    Sorted,
    Rounded(usize),
    Standard(String),
}

/// A selector into a structured value together with the strategy applied to
/// every position the selector addresses.
#[derive(Debug, Clone)]
pub struct RedactionRule {
    pub selector: String,
    pub strategy: RedactionType,
}

/// A dynamic strategy argument as it arrives at the call boundary, after
/// structural inspection: absent, an unsigned number, a string, or a shape
/// that fits none of those.
#[derive(Debug, Clone, PartialEq, Eq)]
pub enum RedactionArg {
    Absent,
    Uint(usize),
    Text(String),
    Other,
}

impl RedactionType {
    /// Classifies a dynamic strategy argument: absent selects sorting, a
    /// number selects rounding to that many digits, text selects
    /// replacement by that literal, and anything else is rejected.
    pub fn from_arg(arg: RedactionArg) -> (r: Result<RedactionType, SnapError>)
        ensures
            match arg {
                RedactionArg::Absent => r == Result::<RedactionType, SnapError>::Ok(
                    RedactionType::Sorted,
                ),
                RedactionArg::Uint(d) => r == Result::<RedactionType, SnapError>::Ok(
                    RedactionType::Rounded(d),
                ),
                RedactionArg::Text(s) => r matches Ok(t) && t == RedactionType::Standard(s),
                RedactionArg::Other => r matches Err(e) && e.0@ ==
                    "Unable to extract RedactionType"@,
            },
    {
        match arg {
            RedactionArg::Absent => Ok(RedactionType::Sorted),
            RedactionArg::Uint(d) => Ok(RedactionType::Rounded(d)),
            RedactionArg::Text(s) => Ok(RedactionType::Standard(s)),
            RedactionArg::Other => Err(SnapError("Unable to extract RedactionType".to_owned())),
        }
    }

    /// The snapshot library's redaction this strategy selects.
    pub fn to_redaction(&self) -> insta::internals::Redaction {
        match self {
            RedactionType::Sorted => sorted_redaction_ex(),
            RedactionType::Rounded(decimals) => rounded_redaction_ex(*decimals),
            RedactionType::Standard(literal) => static_redaction_ex(literal.as_str()),
        }
    }

    /// An equal copy of this strategy.
    pub fn duplicate(&self) -> (r: RedactionType)
        ensures
            r == *self,
    {
        match self {
            RedactionType::Sorted => RedactionType::Sorted,
            RedactionType::Rounded(decimals) => RedactionType::Rounded(*decimals),
            RedactionType::Standard(literal) => RedactionType::Standard(literal.clone()),
        }
    }
}

impl RedactionRule {
    /// An equal copy of this rule.
    pub fn duplicate(&self) -> (r: RedactionRule)
        ensures
            r == *self,
    {
        RedactionRule { selector: self.selector.clone(), strategy: self.strategy.duplicate() }
    }
}

/// An equal copy of an ordered rule sequence.
pub fn duplicate_rules(rules: &Vec<RedactionRule>) -> (r: Vec<RedactionRule>)
    ensures
        r@ == rules@,
{
    let n = rules.len();
    let mut out: Vec<RedactionRule> = Vec::new();
    let mut i: usize = 0;
    while i < n
        invariant
            i <= n,
            n == rules@.len(),
            out@ == rules@.take(i as int),
        decreases n - i,
    {
        out.push(rules[i].duplicate());
        proof {
            assert(out@ =~= rules@.take(i + 1));
        }
        i = i + 1;
    }
    proof {
        assert(rules@.take(n as int) =~= rules@);
    }
    out
}

#[verifier::external_type_specification]
#[verifier::external_body]
pub struct ExRedaction(insta::internals::Redaction);

/// Relies on insta::sorted_redaction: the redaction that replaces a
/// sequence with a canonically ordered version of itself.
#[verifier::external_body]
fn sorted_redaction_ex() -> insta::internals::Redaction {
    insta::sorted_redaction()
}

/// Relies on insta::rounded_redaction: the redaction that rounds a number
/// to `decimals` decimal digits.
#[verifier::external_body]
fn rounded_redaction_ex(decimals: usize) -> insta::internals::Redaction {
    insta::rounded_redaction(decimals)
}

/// Relies on insta's `From<&str> for Redaction`: the redaction that
/// replaces the matched subtree with the literal placeholder.
#[verifier::external_body]
fn static_redaction_ex(literal: &str) -> insta::internals::Redaction {
    insta::internals::Redaction::from(literal)
}

} // verus!
