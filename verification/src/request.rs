//! The placement request as the gatekeeper reads it, and the rules it is
//! held to: all mandatory fields are there, and the context stays within the
//! visibility budget.

use crate::verdict::{PolicyReason, Verdict};
use vstd::prelude::*;

verus! {

/// Name of the mandatory field that identifies the asset to place.
pub const ASSET_ID: &'static str = "asset_id";

/// Name of the mandatory field that holds the position to place it at.
pub const WORLD_COORDINATE: &'static str = "world_coordinate";

/// Name of the mandatory field that holds the seed.
pub const SEED: &'static str = "seed";

/// Name of the mandatory field that holds the policy context.
pub const CONTEXT: &'static str = "context";

/// Name of the context member that holds the visibility budget.
pub const VISIBILITY_BUDGET_MS: &'static str = "visibility_budget_ms";

/// The most visibility budget, in milliseconds, that a placement may ask for.
/// A request for exactly this much passes.
pub const VISIBILITY_BUDGET_CEILING_MS: i64 = 250;

/// The budget that a context is taken to ask for where it names none, or
/// none that is an integer.
pub const DEFAULT_VISIBILITY_BUDGET_MS: i64 = 0;

/// What policy reads of a request's `context`. Other members of the context
/// are not examined.
#[derive(Clone, Copy, Debug, PartialEq, Eq)]
pub struct PolicyContext {
    /// The member `visibility_budget_ms`, where it is there and an integer.
    pub visibility_budget_ms: Option<i64>,
}

impl PolicyContext {
    /// The visibility budget that the context asks for, in milliseconds.
    pub open spec fn budget_ms(self) -> int {
        match self.visibility_budget_ms {
            Some(ms) => ms as int,
            None => DEFAULT_VISIBILITY_BUDGET_MS as int,
        }
    }

    /// The rule that the context breaks, if it breaks one.
    pub open spec fn violation(self) -> Option<PolicyReason> {
        if self.budget_ms() > VISIBILITY_BUDGET_CEILING_MS {
            Some(PolicyReason::VisibilityBudgetExceeded)
        } else {
            None
        }
    }

    /// Holds the context to the policy rules and reports the first one that
    /// it breaks. A negative budget breaks none.
    pub fn evaluate(&self) -> (violation: Option<PolicyReason>)
        ensures
            violation == self.violation(),
    {
        let budget: i64 = match self.visibility_budget_ms {
            Some(ms) => ms,
            None => DEFAULT_VISIBILITY_BUDGET_MS,
        };
        if budget > VISIBILITY_BUDGET_CEILING_MS {
            Some(PolicyReason::VisibilityBudgetExceeded)
        } else {
            None
        }
    }
}

/// One proposed placement, reduced to what the gatekeeper decides on: which
/// of the mandatory fields the request carries, and what policy reads of its
/// context. The values of `asset_id`, `world_coordinate` and `seed` are not
/// interpreted, so only their presence is kept.
#[derive(Clone, Copy, Debug, PartialEq, Eq)]
pub struct PlacementRequest {
    /// Whether the request names the asset to place.
    pub has_asset_id: bool,
    /// Whether the request names the position to place it at.
    pub has_world_coordinate: bool,
    /// Whether the request carries a seed.
    pub has_seed: bool,
    /// The request's context, `None` where the request has none.
    pub context: Option<PolicyContext>,
}

impl PlacementRequest {
    /// All four mandatory fields are there.
    pub open spec fn is_complete(self) -> bool {
        &&& self.has_asset_id
        &&& self.has_world_coordinate
        &&& self.has_seed
        &&& self.context is Some
    }

    /// The visibility budget that the request asks for, in milliseconds;
    /// the default where it has no context.
    pub open spec fn budget_ms(self) -> int {
        match self.context {
            Some(context) => context.budget_ms(),
            None => DEFAULT_VISIBILITY_BUDGET_MS as int,
        }
    }

    /// The verdict that the request deserves.
    pub open spec fn verdict(self) -> Verdict {
        if !self.is_complete() {
            Verdict::MissingRequiredField
        } else if self.budget_ms() > VISIBILITY_BUDGET_CEILING_MS {
            Verdict::PolicyViolation(PolicyReason::VisibilityBudgetExceeded)
        } else {
            Verdict::Approved
        }
    }

    /// Confirms that every mandatory field is present. Which field is absent
    /// makes no difference to the answer.
    pub fn check_structure(&self) -> (complete: bool)
        ensures
            complete == self.is_complete(),
    {
        self.has_asset_id && self.has_world_coordinate && self.has_seed && self.context.is_some()
    }

    /// Decides on the request: the structure first, then policy. The request
    /// is approved only if it passes both.
    pub fn judge(&self) -> (verdict: Verdict)
        ensures
            verdict == self.verdict(),
    {
        if !self.check_structure() {
            return Verdict::MissingRequiredField;
        }
        let violation: Option<PolicyReason> = match self.context {
            Some(context) => context.evaluate(),
            None => None,
        };
        match violation {
            Some(reason) => Verdict::PolicyViolation(reason),
            None => Verdict::Approved,
        }
    }
}

} // verus!
