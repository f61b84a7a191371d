//! A gatekeeper for placement requests.
//!
//! A host hands over the bytes of one proposed placement, an asset to be put
//! at a coordinate of a world under a seed and a context, and gets back one
//! result code: approved, or the reason for the rejection. Nothing is kept
//! between two calls.

pub mod document;
pub mod gate;
pub mod request;
pub mod verdict;

pub use gate::{examine, validate};
pub use request::{PlacementRequest, PolicyContext};
pub use verdict::{PolicyReason, Verdict};
