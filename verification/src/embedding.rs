//! Embedding payloads, page ingestion and embedding search: the requests,
//! their validation and the records they produce.
use vstd::prelude::*;

use crate::float_bits::{self, f32_bits_in_range, all_bits_finite, F32_ONE, F32_ZERO};
use crate::text;
use crate::validation::{self, require_http_url_shape, require_non_empty, ValidationError};
use crate::UtcTimestamp;
use uuid::Uuid;

verus! {

/// How the values of an embedding vector are normalized. `Unnormalized`
/// is the variant named `none` on the wire.
#[derive(Debug, Clone, Copy, PartialEq, Eq, Structural)]
pub enum VectorNormalization {
    Unnormalized,
    L2,
    UnitLength,
}

/// An embedding vector with the model that made it. Each value is the bit
/// pattern of an `f32` component (`f32::to_bits`).
#[derive(Debug, Clone)]
pub struct EmbeddingPayload {
    pub model: String,
    pub model_version: String,
    pub dimensions: u32,
    pub normalization: VectorNormalization,
    pub values: Vec<u32>,
}

/// Why an embedding payload is rejected, if it is.
pub open spec fn embedding_payload_error(p: EmbeddingPayload) -> Option<Seq<char>> {
    if validation::non_empty_error("model"@, p.model@, 256) is Some {
        validation::non_empty_error("model"@, p.model@, 256)
    } else if validation::non_empty_error("model_version"@, p.model_version@, 256) is Some {
        validation::non_empty_error("model_version"@, p.model_version@, 256)
    } else if p.dimensions == 0 || p.dimensions > 65_535 {
        Some("dimensions must be between 1 and 65535"@)
    } else if p.values@.len() != p.dimensions {
        Some(
            "embedding length "@ + text::decimal(p.values@.len()) + " does not match dimensions "@
                + text::decimal(p.dimensions as nat),
        )
    } else if !float_bits::all_finite(p.values@) {
        Some("embedding values must all be finite"@)
    } else {
        None
    }
}

impl EmbeddingPayload {
    /// Accepts non-blank model and version names of at most 256 bytes, 1 to
    /// 65,535 dimensions, exactly that many values, all finite.
    pub fn validate(&self) -> (r: Result<(), ValidationError>)
        ensures
            validation::outcome(r) == embedding_payload_error(*self),
    {
        require_non_empty("model", self.model.as_str(), 256)?;
        require_non_empty("model_version", self.model_version.as_str(), 256)?;
        if self.dimensions == 0 || self.dimensions > 65_535 {
            return Err(ValidationError(String::from_str("dimensions must be between 1 and 65535")));
        }
        if self.values.len() != self.dimensions as usize {
            let mut message = String::from_str("embedding length ");
            text::push_decimal(&mut message, self.values.len() as u64);
            message.append(" does not match dimensions ");
            text::push_decimal(&mut message, self.dimensions as u64);
            return Err(ValidationError(message));
        }
        if !all_bits_finite(&self.values) {
            return Err(ValidationError(String::from_str("embedding values must all be finite")));
        }
        Ok(())
    }
}

/// An accepted payload holds exactly `dimensions` values, 1 to 65,535 of
/// them, all finite: a vector cannot hide a dimension or NaN mismatch.
pub proof fn lemma_accepted_payload_matches_dimensions(p: EmbeddingPayload)
    requires
        embedding_payload_error(p) is None,
    ensures
        1 <= p.dimensions <= 65_535,
        p.values@.len() == p.dimensions,
        float_bits::all_finite(p.values@),
{
}

/// Whether a payload satisfies the payload rules, stated on its fields.
pub open spec fn payload_within_bounds(p: EmbeddingPayload) -> bool {
    &&& text::trim(p.model@).len() > 0
    &&& text::utf8_len(p.model@) <= 256
    &&& text::trim(p.model_version@).len() > 0
    &&& text::utf8_len(p.model_version@) <= 256
    &&& 1 <= p.dimensions <= 65_535
    &&& p.values@.len() == p.dimensions
    &&& forall|i: int| 0 <= i < p.values@.len() ==> #[trigger] p.values@[i] % 0x8000_0000 < 0x7F80_0000
}

/// An embedding payload is accepted exactly when it names a non-blank model
/// and model version of at most 256 bytes each, declares 1 to 65,535
/// dimensions, holds exactly that many values and every value is finite. A
/// blank model is refused first.
pub proof fn lemma_payload_acceptance(p: EmbeddingPayload)
    ensures
        embedding_payload_error(p) is None <==> payload_within_bounds(p),
        text::trim(p.model@).len() == 0 ==> embedding_payload_error(p) == Some(
            "model must not be empty"@,
        ),
{
    validation::lemma_required_text("model"@, p.model@, 256);
    validation::lemma_required_text("model_version"@, p.model_version@, 256);
    reveal_strlit("model");
    reveal_strlit(" must not be empty");
    reveal_strlit("model must not be empty");
    assert("model"@ + " must not be empty"@ =~= "model must not be empty"@);
}

/// Whether a URL, trimmed, is an absolute http(s) URL without credentials.
pub open spec fn is_plain_http_url(url: Seq<char>) -> bool {
    let trimmed = text::trim(url);
    (text::starts_with(trimmed, "https://"@) || text::starts_with(trimmed, "http://"@))
        && !trimmed.contains('@')
}

/// A fetched page handed to ingestion, with its embedding.
#[derive(Debug, Clone)]
pub struct PageIngestRequest {
    pub source_id: Uuid,
    pub url: String,
    pub final_url: String,
    pub title: Option<String>,
    pub content_text: String,
    pub content_type: String,
    pub http_status: u16,
    pub published_at: Option<UtcTimestamp>,
    pub fetched_at: UtcTimestamp,
    pub embedding: EmbeddingPayload,
}

/// Why an ingest request is rejected, if it is.
pub open spec fn page_ingest_error(req: PageIngestRequest) -> Option<Seq<char>> {
    if validation::url_shape_error("url"@, req.url@) is Some {
        validation::url_shape_error("url"@, req.url@)
    } else if validation::url_shape_error("final_url"@, req.final_url@) is Some {
        validation::url_shape_error("final_url"@, req.final_url@)
    } else if validation::non_empty_error("content_text"@, req.content_text@, 5_000_000) is Some {
        validation::non_empty_error("content_text"@, req.content_text@, 5_000_000)
    } else if validation::non_empty_error("content_type"@, req.content_type@, 256) is Some {
        validation::non_empty_error("content_type"@, req.content_type@, 256)
    } else if !(200 <= req.http_status && req.http_status <= 399) {
        Some("http_status must represent a successful or redirect response"@)
    } else {
        embedding_payload_error(req.embedding)
    }
}

impl PageIngestRequest {
    /// Accepts http(s) URLs without credentials, non-blank content of at most
    /// 5,000,000 bytes, a non-blank content type of at most 256 bytes, a 2xx
    /// or 3xx status and a valid embedding.
    pub fn validate(&self) -> (r: Result<(), ValidationError>)
        ensures
            validation::outcome(r) == page_ingest_error(*self),
    {
        require_http_url_shape("url", self.url.as_str())?;
        require_http_url_shape("final_url", self.final_url.as_str())?;
        require_non_empty("content_text", self.content_text.as_str(), 5_000_000)?;
        require_non_empty("content_type", self.content_type.as_str(), 256)?;
        if !(200 <= self.http_status && self.http_status <= 399) {
            return Err(
                ValidationError(
                    String::from_str("http_status must represent a successful or redirect response"),
                ),
            );
        }
        self.embedding.validate()
    }
}

/// An accepted ingest request names http(s) URLs without credentials,
/// reports a 2xx or 3xx status and carries a vector of exactly its declared
/// dimensions, all finite.
pub proof fn lemma_accepted_page_ingest_is_consistent(req: PageIngestRequest)
    requires
        page_ingest_error(req) is None,
    ensures
        validation::url_shape_error("url"@, req.url@) is None,
        validation::url_shape_error("final_url"@, req.final_url@) is None,
        200 <= req.http_status <= 399,
        req.embedding.values@.len() == req.embedding.dimensions,
        float_bits::all_finite(req.embedding.values@),
{
}

/// An ingest request is accepted exactly when both URLs are absolute http(s)
/// URLs without credentials, the content text (at most 5,000,000 bytes) and
/// the content type (at most 256 bytes) are non-blank, the status is 2xx or
/// 3xx and the embedding is accepted.
pub proof fn lemma_page_ingest_acceptance(req: PageIngestRequest)
    ensures
        page_ingest_error(req) is None <==> {
            &&& is_plain_http_url(req.url@)
            &&& is_plain_http_url(req.final_url@)
            &&& text::trim(req.content_text@).len() > 0
            &&& text::utf8_len(req.content_text@) <= 5_000_000
            &&& text::trim(req.content_type@).len() > 0
            &&& text::utf8_len(req.content_type@) <= 256
            &&& 200 <= req.http_status <= 399
            &&& payload_within_bounds(req.embedding)
        },
{
    validation::lemma_required_text("content_text"@, req.content_text@, 5_000_000);
    validation::lemma_required_text("content_type"@, req.content_type@, 256);
    lemma_payload_acceptance(req.embedding);
}

/// The revision a page ingestion produced.
#[derive(Debug, Clone)]
pub struct PageRevision {
    pub page_id: Uuid,
    pub revision_id: Uuid,
    pub embedding_id: Uuid,
    pub source_id: Uuid,
    pub tenant_id: Uuid,
    pub canonical_url: String,
    pub content_sha256: String,
    pub changed: bool,
    pub fetched_at: UtcTimestamp,
}

/// Where a paged search resumes. `distance` is the bit pattern of the `f64`
/// distance (`f64::to_bits`).
#[derive(Debug, Clone)]
pub struct SearchCursor {
    pub distance: u64,
    pub embedding_id: Uuid,
}

/// A nearest-neighbour search over stored embeddings. `min_similarity` is the
/// bit pattern of the `f32` bound (`f32::to_bits`).
#[derive(Debug, Clone)]
pub struct EmbeddingSearchRequest {
    pub embedding: EmbeddingPayload,
    pub min_similarity: u32,
    pub limit: u16,
    pub cursor: Option<SearchCursor>,
    pub source_ids: Vec<Uuid>,
}

/// Why a search request is rejected, if it is.
pub open spec fn embedding_search_error(req: EmbeddingSearchRequest) -> Option<Seq<char>> {
    if embedding_payload_error(req.embedding) is Some {
        embedding_payload_error(req.embedding)
    } else if !float_bits::f32_in_range(F32_ZERO, F32_ONE, req.min_similarity) {
        Some("min_similarity must be between 0 and 1"@)
    } else if !(1 <= req.limit && req.limit <= 200) {
        Some("limit must be between 1 and 200"@)
    } else if req.source_ids@.len() > 100 {
        Some("source_ids must contain at most 100 IDs"@)
    } else {
        None
    }
}

impl EmbeddingSearchRequest {
    /// Accepts a valid embedding, a minimum similarity between 0 and 1, a
    /// limit of 1 to 200 hits and at most 100 source filters.
    pub fn validate(&self) -> (r: Result<(), ValidationError>)
        ensures
            validation::outcome(r) == embedding_search_error(*self),
    {
        self.embedding.validate()?;
        if !f32_bits_in_range(F32_ZERO, F32_ONE, self.min_similarity) {
            return Err(ValidationError(String::from_str("min_similarity must be between 0 and 1")));
        }
        if !(1 <= self.limit && self.limit <= 200) {
            return Err(ValidationError(String::from_str("limit must be between 1 and 200")));
        }
        if self.source_ids.len() > 100 {
            return Err(ValidationError(String::from_str("source_ids must contain at most 100 IDs")));
        }
        Ok(())
    }
}

/// An accepted search is bounded: 1 to 200 hits, at most 100 sources, a
/// minimum similarity between 0 and 1, over a well-formed vector.
pub proof fn lemma_accepted_search_is_bounded(req: EmbeddingSearchRequest)
    requires
        embedding_search_error(req) is None,
    ensures
        1 <= req.limit <= 200,
        req.source_ids@.len() <= 100,
        float_bits::f32_in_range(F32_ZERO, F32_ONE, req.min_similarity),
        req.embedding.values@.len() == req.embedding.dimensions,
{
}

/// A search is accepted exactly when its embedding is accepted, its minimum
/// similarity is a binary32 value from 0 to 1, its limit is 1 to 200 and it
/// filters at most 100 sources.
pub proof fn lemma_search_acceptance(req: EmbeddingSearchRequest)
    ensures
        embedding_search_error(req) is None <==> {
            &&& payload_within_bounds(req.embedding)
            &&& (req.min_similarity <= 0x3F80_0000 || req.min_similarity == 0x8000_0000)
            &&& 1 <= req.limit <= 200
            &&& req.source_ids@.len() <= 100
        },
{
    lemma_payload_acceptance(req.embedding);
    float_bits::lemma_unit_range_patterns(req.min_similarity);
}

/// The default minimum similarity of a search: the bit pattern of
/// `0.78_f32`.
pub fn default_min_similarity() -> (bits: u32)
    ensures
        bits == 0x3F47_AE14,
{
    0x3F47_AE14
}

/// The default number of hits of a search.
pub fn default_search_limit() -> (limit: u16)
    ensures
        limit == 50,
{
    50
}

/// One page a search found. `similarity` and `distance` are the bit patterns
/// of their `f64` values (`f64::to_bits`).
#[derive(Debug, Clone)]
pub struct EmbeddingSearchHit {
    pub embedding_id: Uuid,
    pub revision_id: Uuid,
    pub page_id: Uuid,
    pub source_id: Uuid,
    pub canonical_url: String,
    pub title: Option<String>,
    pub excerpt: String,
    pub similarity: u64,
    pub distance: u64,
    pub model: String,
    pub model_version: String,
    pub dimensions: u32,
    pub normalization: VectorNormalization,
    pub fetched_at: UtcTimestamp,
}

/// One page of search results and where the next one starts.
#[derive(Debug, Clone)]
pub struct EmbeddingSearchResponse {
    pub hits: Vec<EmbeddingSearchHit>,
    pub next_cursor: Option<SearchCursor>,
}

} // verus!
