//! The rules on a request, and the reading of a request from a document.

use placement_gate::gate::{read_context, read_request};
use placement_gate::request::{
    ASSET_ID, CONTEXT, DEFAULT_VISIBILITY_BUDGET_MS, SEED, VISIBILITY_BUDGET_CEILING_MS,
    VISIBILITY_BUDGET_MS, WORLD_COORDINATE,
};
use placement_gate::{PlacementRequest, PolicyContext, PolicyReason, Verdict};
use serde_json::Value;

fn document(text: &str) -> Value {
    serde_json::from_str(text).unwrap()
}

fn complete(budget: Option<i64>) -> PlacementRequest {
    PlacementRequest {
        has_asset_id: true,
        has_world_coordinate: true,
        has_seed: true,
        context: Some(PolicyContext {
            visibility_budget_ms: budget,
        }),
    }
}

#[test]
fn ceiling_is_250_and_default_is_0() {
    assert_eq!(VISIBILITY_BUDGET_CEILING_MS, 250);
    assert_eq!(DEFAULT_VISIBILITY_BUDGET_MS, 0);
}

#[test]
fn field_names_are_those_of_the_request() {
    assert_eq!(ASSET_ID, "asset_id");
    assert_eq!(WORLD_COORDINATE, "world_coordinate");
    assert_eq!(SEED, "seed");
    assert_eq!(CONTEXT, "context");
    assert_eq!(VISIBILITY_BUDGET_MS, "visibility_budget_ms");
}

#[test]
fn codes_are_stable() {
    assert_eq!(Verdict::Approved.code(), 0);
    assert_eq!(Verdict::MissingRequiredField.code(), 1);
    assert_eq!(
        Verdict::PolicyViolation(PolicyReason::VisibilityBudgetExceeded).code(),
        2
    );
    assert_eq!(Verdict::MalformedInput.code(), 3);
}

#[test]
fn reason_has_its_label() {
    assert_eq!(
        PolicyReason::VisibilityBudgetExceeded.label(),
        "visibility_budget_exceeded"
    );
}

#[test]
fn policy_passes_up_to_the_ceiling() {
    let context = |budget| PolicyContext {
        visibility_budget_ms: budget,
    };
    assert_eq!(context(None).evaluate(), None);
    assert_eq!(context(Some(0)).evaluate(), None);
    assert_eq!(context(Some(250)).evaluate(), None);
    assert_eq!(context(Some(-1)).evaluate(), None);
    assert_eq!(context(Some(i64::MIN)).evaluate(), None);
    assert_eq!(
        context(Some(251)).evaluate(),
        Some(PolicyReason::VisibilityBudgetExceeded)
    );
    assert_eq!(
        context(Some(i64::MAX)).evaluate(),
        Some(PolicyReason::VisibilityBudgetExceeded)
    );
}

#[test]
fn structure_needs_all_four_fields() {
    assert!(complete(None).check_structure());
    assert!(complete(Some(1000)).check_structure());
    let mut request = complete(Some(10));
    request.has_asset_id = false;
    assert!(!request.check_structure());
    let mut request = complete(Some(10));
    request.has_world_coordinate = false;
    assert!(!request.check_structure());
    let mut request = complete(Some(10));
    request.has_seed = false;
    assert!(!request.check_structure());
    let mut request = complete(Some(10));
    request.context = None;
    assert!(!request.check_structure());
}

#[test]
fn complete_request_within_budget_is_approved() {
    assert_eq!(complete(None).judge(), Verdict::Approved);
    assert_eq!(complete(Some(100)).judge(), Verdict::Approved);
    assert_eq!(complete(Some(250)).judge(), Verdict::Approved);
    assert_eq!(complete(Some(-5)).judge(), Verdict::Approved);
}

#[test]
fn complete_request_over_budget_is_rejected() {
    let rejected = Verdict::PolicyViolation(PolicyReason::VisibilityBudgetExceeded);
    assert_eq!(complete(Some(251)).judge(), rejected);
    assert_eq!(complete(Some(300)).judge(), rejected);
    assert_eq!(complete(Some(i64::MAX)).judge(), rejected);
}

#[test]
fn incomplete_request_is_rejected_whatever_the_budget() {
    for budget in [None, Some(0), Some(250), Some(251)] {
        for missing in 0..4 {
            let mut request = complete(budget);
            match missing {
                0 => request.has_asset_id = false,
                1 => request.has_world_coordinate = false,
                2 => request.has_seed = false,
                _ => request.context = None,
            }
            assert_eq!(request.judge(), Verdict::MissingRequiredField);
        }
    }
    let nothing = PlacementRequest {
        has_asset_id: false,
        has_world_coordinate: false,
        has_seed: false,
        context: None,
    };
    assert_eq!(nothing.judge(), Verdict::MissingRequiredField);
}

#[test]
fn request_is_read_from_the_top_level_members() {
    let full = document(
        r#"{"asset_id":"a1","world_coordinate":[1,2,3],"seed":42,"context":{"visibility_budget_ms":100}}"#,
    );
    assert_eq!(read_request(&full), complete(Some(100)));

    let partial = document(r#"{"seed":42,"context":{"asset_id":"a1","world_coordinate":[]}}"#);
    assert_eq!(
        read_request(&partial),
        PlacementRequest {
            has_asset_id: false,
            has_world_coordinate: false,
            has_seed: true,
            context: Some(PolicyContext {
                visibility_budget_ms: None
            }),
        }
    );

    let empty = document("{}");
    assert_eq!(
        read_request(&empty),
        PlacementRequest {
            has_asset_id: false,
            has_world_coordinate: false,
            has_seed: false,
            context: None,
        }
    );
}

#[test]
fn request_read_from_an_array_has_no_field() {
    let list = document(r#"[{"asset_id":"a1","world_coordinate":[1,2,3],"seed":42,"context":{}}]"#);
    assert_eq!(
        read_request(&list),
        PlacementRequest {
            has_asset_id: false,
            has_world_coordinate: false,
            has_seed: false,
            context: None,
        }
    );
}

#[test]
fn context_reads_only_an_integer_budget() {
    let budget = |text: &str| read_context(&document(text)).visibility_budget_ms;
    assert_eq!(budget(r#"{"visibility_budget_ms":300}"#), Some(300));
    assert_eq!(budget(r#"{"visibility_budget_ms":-4}"#), Some(-4));
    assert_eq!(
        budget(r#"{"visibility_budget_ms":9223372036854775807}"#),
        Some(i64::MAX)
    );
    assert_eq!(budget(r#"{"visibility_budget_ms":9223372036854775808}"#), None);
    assert_eq!(budget(r#"{"visibility_budget_ms":12.0}"#), None);
    assert_eq!(budget(r#"{"visibility_budget_ms":"12"}"#), None);
    assert_eq!(budget(r#"{"visibility_budget_ms":{"visibility_budget_ms":12}}"#), None);
    assert_eq!(budget(r#"{"other":12}"#), None);
    assert_eq!(budget("{}"), None);
    assert_eq!(budget("12"), None);
    assert_eq!(budget("null"), None);
    assert_eq!(budget("[12]"), None);
}

#[test]
fn request_read_from_a_document_is_judged_by_its_budget() {
    let over = document(
        r#"{"asset_id":"a1","world_coordinate":[1,2,3],"seed":42,"context":{"visibility_budget_ms":251}}"#,
    );
    assert_eq!(
        read_request(&over).judge(),
        Verdict::PolicyViolation(PolicyReason::VisibilityBudgetExceeded)
    );
    let at = document(
        r#"{"asset_id":"a1","world_coordinate":[1,2,3],"seed":42,"context":{"visibility_budget_ms":250}}"#,
    );
    assert_eq!(read_request(&at).judge(), Verdict::Approved);
    let no_seed = document(
        r#"{"asset_id":"a1","world_coordinate":[1,2,3],"context":{"visibility_budget_ms":251}}"#,
    );
    assert_eq!(read_request(&no_seed).judge(), Verdict::MissingRequiredField);
}
