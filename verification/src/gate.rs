//! The gatekeeper itself: decode, check the structure, apply policy, encode.

use crate::document::{decode, decoded, integer_of, member, members};
use crate::request::{
    PlacementRequest, PolicyContext, ASSET_ID, CONTEXT, DEFAULT_VISIBILITY_BUDGET_MS, SEED,
    VISIBILITY_BUDGET_CEILING_MS, VISIBILITY_BUDGET_MS, WORLD_COORDINATE,
};
use crate::verdict::{PolicyReason, Verdict};
use serde_json::Value;
use vstd::prelude::*;

verus! {

/// The names of the fields that every request must carry.
pub open spec fn required_fields() -> Seq<Seq<char>> {
    seq![ASSET_ID@, WORLD_COORDINATE@, SEED@, CONTEXT@]
}

/// What policy reads of the value of a request's `context` field. A context
/// that is no object, or that lacks the budget, or whose budget is not an
/// integer, yields no budget.
pub open spec fn context_of(context: Value) -> PolicyContext {
    PolicyContext {
        visibility_budget_ms: if members(context).contains_key(VISIBILITY_BUDGET_MS@) {
            integer_of(members(context)[VISIBILITY_BUDGET_MS@])
        } else {
            None
        },
    }
}

/// The request that a decoded document stands for.
pub open spec fn request_of(document: Value) -> PlacementRequest {
    PlacementRequest {
        has_asset_id: members(document).contains_key(ASSET_ID@),
        has_world_coordinate: members(document).contains_key(WORLD_COORDINATE@),
        has_seed: members(document).contains_key(SEED@),
        context: if members(document).contains_key(CONTEXT@) {
            Some(context_of(members(document)[CONTEXT@]))
        } else {
            None
        },
    }
}

/// The verdict on an input: malformed where it does not decode, else the
/// verdict on the request that it decodes to.
pub open spec fn verdict_of(input: Seq<u8>) -> Verdict {
    match decoded(input) {
        Some(document) => request_of(document).verdict(),
        None => Verdict::MalformedInput,
    }
}

/// Reads from the value of a `context` field what policy decides on.
pub fn read_context(context: &Value) -> (read: PolicyContext)
    ensures
        read == context_of(*context),
{
    let visibility_budget_ms: Option<i64> = match member(context, VISIBILITY_BUDGET_MS) {
        Some(budget) => budget.as_i64(),
        None => None,
    };
    PolicyContext { visibility_budget_ms }
}

/// Reads from a decoded document the request that it stands for.
pub fn read_request(document: &Value) -> (request: PlacementRequest)
    ensures
        request == request_of(*document),
{
    let context: Option<PolicyContext> = match member(document, CONTEXT) {
        Some(context) => Some(read_context(context)),
        None => None,
    };
    PlacementRequest {
        has_asset_id: member(document, ASSET_ID).is_some(),
        has_world_coordinate: member(document, WORLD_COORDINATE).is_some(),
        has_seed: member(document, SEED).is_some(),
        context,
    }
}

/// Decides on the placement that `input` proposes. Every input gets a
/// verdict; one that does not decode is reported as malformed.
pub fn examine(input: &[u8]) -> (verdict: Verdict)
    ensures
        verdict == verdict_of(input@),
{
    match decode(input) {
        Ok(document) => read_request(&document).judge(),
        Err(_) => Verdict::MalformedInput,
    }
}

/// Validates the placement that `input` proposes and returns the result
/// code: 0 approved, 1 a mandatory field is missing, 2 a policy rule is
/// broken, 3 the input does not decode. The code depends on the bytes alone.
pub fn validate(input: &[u8]) -> (code: i32)
    ensures
        code == verdict_of(input@).result_code(),
{
    examine(input).code()
}

/// The input decodes.
pub open spec fn is_well_formed(input: Seq<u8>) -> bool {
    decoded(input) is Some
}

/// The input decodes to an object that has a member named `field`.
pub open spec fn carries(input: Seq<u8>, field: Seq<char>) -> bool {
    decoded(input) matches Some(document) && members(document).contains_key(field)
}

/// The input carries every mandatory field.
pub open spec fn is_structurally_complete(input: Seq<u8>) -> bool {
    forall|i: int|
        0 <= i < required_fields().len() ==> carries(input, #[trigger] required_fields()[i])
}

/// The visibility budget that the input asks for, in milliseconds: the
/// integer at `visibility_budget_ms` in its `context`, and the default where
/// the input holds none there.
pub open spec fn requested_budget_ms(input: Seq<u8>) -> int {
    match decoded(input) {
        Some(document) => request_of(document).budget_ms(),
        None => DEFAULT_VISIBILITY_BUDGET_MS as int,
    }
}

/// An input carries every mandatory field exactly when it decodes to a
/// request that is complete.
proof fn lemma_complete_input_is_complete_request(input: Seq<u8>)
    ensures
        is_structurally_complete(input) <==> (decoded(input) matches Some(document)
            && request_of(document).is_complete()),
{
    let fields = required_fields();
    assert(fields.len() == 4);
    assert(fields[0] == ASSET_ID@);
    assert(fields[1] == WORLD_COORDINATE@);
    assert(fields[2] == SEED@);
    assert(fields[3] == CONTEXT@);
}

/// A well-formed input that carries all four mandatory fields and asks for
/// no more visibility budget than the ceiling, or names none, is approved.
pub proof fn lemma_complete_within_budget_is_approved(input: Seq<u8>)
    requires
        is_well_formed(input),
        is_structurally_complete(input),
        requested_budget_ms(input) <= VISIBILITY_BUDGET_CEILING_MS,
    ensures
        verdict_of(input) == Verdict::Approved,
        verdict_of(input).result_code() == 0,
{
    lemma_complete_input_is_complete_request(input);
}

/// Nothing else is approved: an approved input is well formed, carries all
/// four mandatory fields and stays within the ceiling.
pub proof fn lemma_approved_is_complete_within_budget(input: Seq<u8>)
    requires
        verdict_of(input) == Verdict::Approved,
    ensures
        is_well_formed(input),
        is_structurally_complete(input),
        requested_budget_ms(input) <= VISIBILITY_BUDGET_CEILING_MS,
{
    lemma_complete_input_is_complete_request(input);
}

/// A well-formed input that lacks a mandatory field is reported as such,
/// whichever field it is and whatever else the input holds.
pub proof fn lemma_missing_field_is_reported(input: Seq<u8>, field: Seq<char>)
    requires
        is_well_formed(input),
        required_fields().contains(field),
        !carries(input, field),
    ensures
        verdict_of(input) == Verdict::MissingRequiredField,
        verdict_of(input).result_code() == 1,
{
    lemma_complete_input_is_complete_request(input);
}

/// An input that carries all four mandatory fields and asks for more
/// visibility budget than the ceiling is a policy violation.
pub proof fn lemma_complete_over_budget_is_rejected(input: Seq<u8>)
    requires
        is_structurally_complete(input),
        requested_budget_ms(input) > VISIBILITY_BUDGET_CEILING_MS,
    ensures
        verdict_of(input) == Verdict::PolicyViolation(PolicyReason::VisibilityBudgetExceeded),
        verdict_of(input).result_code() == 2,
{
    lemma_complete_input_is_complete_request(input);
}

/// An input is reported as malformed exactly when it does not decode, under
/// a code that no other outcome has.
pub proof fn lemma_malformed_exactly_when_undecodable(input: Seq<u8>)
    ensures
        verdict_of(input) == Verdict::MalformedInput <==> !is_well_formed(input),
        verdict_of(input).result_code() == 3 <==> !is_well_formed(input),
{
}

/// The verdict and its code are functions of the input's bytes: the same
/// bytes get the same answer, call after call.
pub proof fn lemma_same_bytes_same_answer(first: Seq<u8>, second: Seq<u8>)
    requires
        first == second,
    ensures
        verdict_of(first) == verdict_of(second),
        verdict_of(first).result_code() == verdict_of(second).result_code(),
{
}

} // verus!
