//! Canonical contracts of the Embedded Alerts platform: the control-plane
//! records and requests with their validation, the semantic ingestion and
//! matching contracts, and the semantic text views sent for embedding.
use vstd::prelude::*;

mod outside;

pub mod alert_rules;
pub mod embedding;
pub mod float_bits;
pub mod matching;
pub mod semantic;
pub mod semantic_contracts;
pub mod source_policy;
pub mod text;
pub mod validation;

pub use alert_rules::{AlertRule, AlertRuleEvent, AlertRuleStatus, CreateAlertRule};
pub use embedding::{
    default_min_similarity, default_search_limit, EmbeddingPayload, EmbeddingSearchHit, EmbeddingSearchRequest,
    EmbeddingSearchResponse, PageIngestRequest, PageRevision, SearchCursor, VectorNormalization,
};
pub use matching::{ApiError, MatchCandidate, MatchCandidateStatus};
pub use source_policy::{
    default_crawl_interval_seconds, default_discovery_modes, default_max_depth,
    default_max_pages_per_run, default_path_prefixes, default_true, CreateSourcePolicy,
    DiscoveryMode, SourcePolicy,
};
pub use validation::ValidationError;

verus! {

/// An instant in UTC: whole seconds since the Unix epoch and the nanoseconds
/// past that second, as `chrono::DateTime<Utc>` holds it.
#[derive(Debug, Clone, Copy, PartialEq, Eq, Hash, Structural)]
pub struct UtcTimestamp {
    pub seconds: i64,
    pub nanos: u32,
}

} // verus!
