//! The outcome of one validation, and the code that the host reads.

use vstd::prelude::*;

verus! {

/// Result code of an approved placement.
pub const CODE_APPROVED: i32 = 0;

/// Result code of a request that lacks a mandatory field.
pub const CODE_MISSING_REQUIRED_FIELD: i32 = 1;

/// Result code of a request that a policy rule rejects, whatever the rule.
pub const CODE_POLICY_VIOLATION: i32 = 2;

/// Result code of an input that does not decode.
pub const CODE_MALFORMED_INPUT: i32 = 3;

/// The policy rule that a request broke.
#[derive(Clone, Copy, Debug, PartialEq, Eq, Structural)]
pub enum PolicyReason {
    /// The placement asks for more visibility budget than the ceiling allows.
    VisibilityBudgetExceeded,
}

impl PolicyReason {
    /// The stable name of the rule, as it is reported.
    pub fn label(&self) -> (label: &'static str)
        ensures
            label@ == match *self {
                PolicyReason::VisibilityBudgetExceeded => "visibility_budget_exceeded"@,
            },
    {
        match self {
            PolicyReason::VisibilityBudgetExceeded => "visibility_budget_exceeded",
        }
    }
}

/// The single outcome of validating one placement request.
#[derive(Clone, Copy, Debug, PartialEq, Eq, Structural)]
pub enum Verdict {
    /// The placement may proceed.
    Approved,
    /// The input decodes, but a mandatory field is absent.
    MissingRequiredField,
    /// The request is complete and breaks the named policy rule.
    PolicyViolation(PolicyReason),
    /// The input is not a decodable document.
    MalformedInput,
}

impl Verdict {
    /// The code that stands for this verdict at the call boundary.
    pub open spec fn result_code(self) -> int {
        match self {
            Verdict::Approved => 0,
            Verdict::MissingRequiredField => 1,
            Verdict::PolicyViolation(_) => 2,
            Verdict::MalformedInput => 3,
        }
    }

    /// Encodes the verdict as the integer that the host understands.
    pub fn code(&self) -> (code: i32)
        ensures
            code == self.result_code(),
    {
        match self {
            Verdict::Approved => CODE_APPROVED,
            Verdict::MissingRequiredField => CODE_MISSING_REQUIRED_FIELD,
            Verdict::PolicyViolation(_) => CODE_POLICY_VIOLATION,
            Verdict::MalformedInput => CODE_MALFORMED_INPUT,
        }
    }
}

/// Two verdicts share a code exactly when they are of the same variant: the
/// host can tell every outcome from every other, and a policy violation has
/// one code whatever its reason.
pub proof fn lemma_codes_tell_verdicts_apart(a: Verdict, b: Verdict)
    ensures
        a.result_code() == b.result_code() <==> {
            ||| a == b
            ||| (a is PolicyViolation && b is PolicyViolation)
        },
        0 <= a.result_code() <= 3,
{
}

} // verus!
