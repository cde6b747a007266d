//! Match candidates of the control plane and the error body of its API.
use vstd::prelude::*;

use crate::UtcTimestamp;
use uuid::Uuid;

verus! {

/// The approval and delivery state of a match candidate.
#[derive(Debug, Clone, Copy, PartialEq, Eq, Structural)]
pub enum MatchCandidateStatus {
    Pending,
    Suppressed,
    Approved,
    Rejected,
    Delivered,
    Failed,
}

/// A page revision that matched an alert rule. `similarity` and `threshold`
/// are the bit patterns of their `f64` values (`f64::to_bits`).
#[derive(Debug, Clone)]
pub struct MatchCandidate {
    pub id: Uuid,
    pub tenant_id: Uuid,
    pub alert_rule_id: Uuid,
    pub revision_id: Uuid,
    pub embedding_id: Uuid,
    pub canonical_match_key: String,
    pub similarity: u64,
    pub threshold: u64,
    pub status: MatchCandidateStatus,
    pub score_explanation: serde_json::Value,
    pub created_at: UtcTimestamp,
}

/// The body of an API error response.
#[derive(Debug, Clone)]
pub struct ApiError {
    pub code: String,
    pub message: String,
    pub details: Option<serde_json::Value>,
}

} // verus!
