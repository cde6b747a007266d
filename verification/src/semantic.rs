//! Semantic ingestion, embedding-space, matching, and delivery contracts.
use vstd::prelude::*;

use crate::float_bits::{self, f32_bits_in_range, all_bits_finite, F32_ONE, F32_ZERO};
use crate::text::{self, chars_of, range_starts_with};
use crate::validation;
use crate::UtcTimestamp;
use uuid::Uuid;

verus! {

broadcast use vstd::seq_lib::group_seq_properties;

/// The version of these contracts.
pub const CONTRACT_VERSION: &'static str = "2026-08-10";

/// A rejected semantic request, with a readable reason.
#[derive(Debug, Clone, PartialEq, Eq)]
pub struct ValidationError(pub String);

impl ValidationError {
    /// The text `Display` shows for this error: its reason.
    pub fn to_display_string(&self) -> (s: String)
        ensures
            s@ == self.0@,
    {
        self.0.clone()
    }
}

/// The outcome of a validation: `None` when it passed, else the reason.
pub open spec fn outcome(r: Result<(), ValidationError>) -> Option<Seq<char>> {
    match r {
        Ok(_) => None,
        Err(e) => Some(e.0@),
    }
}

/// Why `value` is not a non-blank text of at most `max_bytes` bytes, if it
/// is not.
pub open spec fn text_error(value: Seq<char>, field: Seq<char>, max_bytes: nat) -> Option<Seq<char>> {
    validation::non_empty_error(field, value, max_bytes)
}

/// Rejects a blank value, then one longer than `max_bytes` bytes of UTF-8.
fn require_text(value: &str, field: &str, max_bytes: usize) -> (r: Result<(), ValidationError>)
    ensures
        outcome(r) == text_error(value@, field@, max_bytes as nat),
{
    match validation::require_non_empty(field, value, max_bytes) {
        Ok(()) => Ok(()),
        Err(e) => Err(ValidationError(e.0)),
    }
}

/// The page-text check and the control plane's non-empty check agree on
/// every value, name and limit: both pass, or both report the same reason
/// ("{field} must not be empty" for a blank value, else
/// "{field} exceeds {max} bytes" for one too long).
pub proof fn lemma_text_check_agrees_with_non_empty_check(value: Seq<char>, field: Seq<char>, max_bytes: nat)
    ensures
        text_error(value, field, max_bytes) == validation::non_empty_error(field, value, max_bytes),
        text_error(value, field, max_bytes) == if text::trim(value).len() == 0 {
            Some(validation::blank_message(field))
        } else if text::utf8_len(value) > max_bytes {
            Some(validation::too_long_message(field, max_bytes))
        } else {
            None
        },
{
}

/// The kind of a registered source.
#[derive(Debug, Clone, Copy, PartialEq, Eq, Structural)]
pub enum SourceKind {
    Rss,
    Atom,
    JsonFeed,
    SearchQuery,
    Sitemap,
    WebPage,
    Api,
}

/// A request to register a source.
#[derive(Debug, Clone, PartialEq)]
pub struct CreateSource {
    pub kind: SourceKind,
    pub name: String,
    pub url: String,
    pub poll_interval_seconds: u32,
    pub enabled: bool,
    pub public_config: serde_json::Value,
    /// Opaque secret-manager reference accepted on writes and never returned by read APIs.
    pub credential_reference: Option<String>,
}

/// Why a create-source request is rejected, if it is.
pub open spec fn create_source_error(req: CreateSource) -> Option<Seq<char>> {
    if text_error(req.name@, "name"@, 256) is Some {
        text_error(req.name@, "name"@, 256)
    } else if text_error(req.url@, "url"@, 8_192) is Some {
        text_error(req.url@, "url"@, 8_192)
    } else if !(text::starts_with(req.url@, "https://"@) || text::starts_with(req.url@, "http://"@)) {
        Some("url must use http or https"@)
    } else if !(60 <= req.poll_interval_seconds && req.poll_interval_seconds <= 604_800) {
        Some("poll_interval_seconds must be between 60 and 604800"@)
    } else {
        match req.credential_reference {
            Some(reference) => text_error(reference@, "credential_reference"@, 2_048),
            None => None,
        }
    }
}

impl CreateSource {
    /// Accepts a non-blank name of at most 256 bytes, a non-blank http(s) URL
    /// of at most 8,192 bytes, a poll interval of 60 to 604,800 seconds and,
    /// if given, a non-blank credential reference of at most 2,048 bytes.
    pub fn validate(&self) -> (r: Result<(), ValidationError>)
        ensures
            outcome(r) == create_source_error(*self),
    {
        require_text(self.name.as_str(), "name", 256)?;
        require_text(self.url.as_str(), "url", 8_192)?;
        let url = chars_of(self.url.as_str());
        let https = chars_of("https://");
        let http = chars_of("http://");
        proof {
            assert(url@.subrange(0, url@.len() as int) =~= url@);
        }
        if !(range_starts_with(&url, 0, url.len(), &https) || range_starts_with(&url, 0, url.len(), &http)) {
            return Err(ValidationError(String::from_str("url must use http or https")));
        }
        if !(60 <= self.poll_interval_seconds && self.poll_interval_seconds <= 604_800) {
            return Err(
                ValidationError(String::from_str("poll_interval_seconds must be between 60 and 604800")),
            );
        }
        match &self.credential_reference {
            Some(reference) => require_text(reference.as_str(), "credential_reference", 2_048),
            None => Ok(()),
        }
    }
}

/// An accepted source is fetched over http or https only.
pub proof fn lemma_accepted_source_uses_http(req: CreateSource)
    requires
        create_source_error(req) is None,
    ensures
        text::starts_with(req.url@, "https://"@) || text::starts_with(req.url@, "http://"@),
        60 <= req.poll_interval_seconds <= 604_800,
{
}

/// A create-source request is accepted exactly when its name (at most 256
/// bytes) and URL (at most 8,192 bytes) are non-blank, the URL itself starts
/// with `https://` or `http://`, the poll interval is 60 to 604,800 seconds,
/// and a credential reference, if any, is non-blank and at most 2,048 bytes.
pub proof fn lemma_create_source_acceptance(req: CreateSource)
    ensures
        create_source_error(req) is None <==> {
            &&& text::trim(req.name@).len() > 0
            &&& text::utf8_len(req.name@) <= 256
            &&& text::trim(req.url@).len() > 0
            &&& text::utf8_len(req.url@) <= 8_192
            &&& (text::starts_with(req.url@, "https://"@) || text::starts_with(req.url@, "http://"@))
            &&& 60 <= req.poll_interval_seconds <= 604_800
            &&& (req.credential_reference matches Some(r) ==> text::trim(r@).len() > 0
                && text::utf8_len(r@) <= 2_048)
        },
{
    validation::lemma_required_text("name"@, req.name@, 256);
    validation::lemma_required_text("url"@, req.url@, 8_192);
    if let Some(r) = req.credential_reference {
        validation::lemma_required_text("credential_reference"@, r@, 2_048);
    }
}

/// The default poll interval of a source, in seconds: fifteen minutes.
pub fn default_poll_interval_seconds() -> (seconds: u32)
    ensures
        seconds == 900,
{
    900
}

/// The default of flags that are on unless a request says otherwise.
pub fn default_true() -> (b: bool)
    ensures
        b,
{
    true
}

/// How the values of vectors in an embedding space are normalized.
/// `Unnormalized` is the variant named `none` on the wire.
#[derive(Debug, Clone, Copy, PartialEq, Eq, Structural)]
pub enum EmbeddingNormalization {
    Unnormalized,
    L2,
}

/// A declared embedding space: provider, model, version, dimensions and
/// normalization. Vectors are compared only within one space.
#[derive(Debug, Clone, PartialEq, Eq)]
pub struct EmbeddingSpace {
    pub id: Uuid,
    pub provider: String,
    pub model: String,
    pub model_version: String,
    pub dimensions: u16,
    pub normalization: EmbeddingNormalization,
}

/// A vector of one embedding space. Each value is the bit pattern of an
/// `f32` component (`f32::to_bits`).
#[derive(Debug, Clone)]
pub struct EmbeddingVector {
    pub space: EmbeddingSpace,
    pub values: Vec<u32>,
    pub generated_at: UtcTimestamp,
}

/// Why an embedding vector is rejected, if it is.
pub open spec fn embedding_vector_error(v: EmbeddingVector) -> Option<Seq<char>> {
    let space = v.space;
    if text_error(space.provider@, "provider"@, 128) is Some {
        text_error(space.provider@, "provider"@, 128)
    } else if text_error(space.model@, "model"@, 256) is Some {
        text_error(space.model@, "model"@, 256)
    } else if text_error(space.model_version@, "model_version"@, 256) is Some {
        text_error(space.model_version@, "model_version"@, 256)
    } else if space.dimensions == 0 || space.dimensions > 32_768 {
        Some("dimensions must be between 1 and 32768"@)
    } else if v.values@.len() != space.dimensions {
        Some("embedding dimension mismatch"@)
    } else if !float_bits::all_finite(v.values@) {
        Some("embedding values must all be finite"@)
    } else {
        None
    }
}

impl EmbeddingVector {
    /// Accepts non-blank provider (at most 128 bytes), model and version (at
    /// most 256 bytes each), 1 to 32,768 dimensions, exactly that many values,
    /// all finite.
    pub fn validate(&self) -> (r: Result<(), ValidationError>)
        ensures
            outcome(r) == embedding_vector_error(*self),
    {
        require_text(self.space.provider.as_str(), "provider", 128)?;
        require_text(self.space.model.as_str(), "model", 256)?;
        require_text(self.space.model_version.as_str(), "model_version", 256)?;
        if self.space.dimensions == 0 || self.space.dimensions > 32_768 {
            return Err(ValidationError(String::from_str("dimensions must be between 1 and 32768")));
        }
        if self.values.len() != self.space.dimensions as usize {
            return Err(ValidationError(String::from_str("embedding dimension mismatch")));
        }
        if !all_bits_finite(&self.values) {
            return Err(ValidationError(String::from_str("embedding values must all be finite")));
        }
        Ok(())
    }
}

/// A vector is accepted exactly when its space names a non-blank provider
/// (at most 128 bytes), model and model version (at most 256 bytes each),
/// declares 1 to 32,768 dimensions, and the vector holds exactly that many
/// values, all finite.
pub proof fn lemma_vector_acceptance(v: EmbeddingVector)
    ensures
        embedding_vector_error(v) is None <==> {
            &&& text::trim(v.space.provider@).len() > 0
            &&& text::utf8_len(v.space.provider@) <= 128
            &&& text::trim(v.space.model@).len() > 0
            &&& text::utf8_len(v.space.model@) <= 256
            &&& text::trim(v.space.model_version@).len() > 0
            &&& text::utf8_len(v.space.model_version@) <= 256
            &&& 1 <= v.space.dimensions <= 32_768
            &&& v.values@.len() == v.space.dimensions
            &&& forall|i: int|
                0 <= i < v.values@.len() ==> #[trigger] v.values@[i] % 0x8000_0000 < 0x7F80_0000
        },
{
    validation::lemma_required_text("provider"@, v.space.provider@, 128);
    validation::lemma_required_text("model"@, v.space.model@, 256);
    validation::lemma_required_text("model_version"@, v.space.model_version@, 256);
}

/// An accepted vector has exactly the dimensions of its space, all finite,
/// so it never mixes with another space's dimensions.
pub proof fn lemma_accepted_vector_fits_its_space(v: EmbeddingVector)
    requires
        embedding_vector_error(v) is None,
    ensures
        1 <= v.space.dimensions <= 32_768,
        v.values@.len() == v.space.dimensions,
        float_bits::all_finite(v.values@),
{
}

/// One immutable revision of an alert rule's matching inputs. The threshold
/// and the two weights are the bit patterns of their `f32` values
/// (`f32::to_bits`).
#[derive(Debug, Clone)]
pub struct AlertRuleRevisionSpec {
    pub query_text: String,
    pub embedding_space_id: Option<Uuid>,
    pub semantic_threshold: u32,
    pub semantic_weight: u32,
    pub lexical_weight: u32,
    pub required_terms: Vec<String>,
    pub excluded_terms: Vec<String>,
    pub source_ids: Vec<Uuid>,
    pub cooldown_seconds: u32,
}

/// The reason for a score-like field outside `0..=1`.
pub open spec fn unit_range_message(field: Seq<char>) -> Seq<char> {
    field + " must be between 0 and 1"@
}

/// Why a rule revision is rejected, if it is, given whether its two weights
/// sum to 1 within 0.0001 in `f32` arithmetic.
pub open spec fn rule_revision_error(spec: AlertRuleRevisionSpec, weights_sum_to_one: bool) -> Option<Seq<char>> {
    if text_error(spec.query_text@, "query_text"@, 16_384) is Some {
        text_error(spec.query_text@, "query_text"@, 16_384)
    } else if !float_bits::f32_in_range(F32_ZERO, F32_ONE, spec.semantic_threshold) {
        Some(unit_range_message("semantic_threshold"@))
    } else if !float_bits::f32_in_range(F32_ZERO, F32_ONE, spec.semantic_weight) {
        Some(unit_range_message("semantic_weight"@))
    } else if !float_bits::f32_in_range(F32_ZERO, F32_ONE, spec.lexical_weight) {
        Some(unit_range_message("lexical_weight"@))
    } else if !weights_sum_to_one {
        Some("semantic_weight and lexical_weight must sum to 1"@)
    } else if spec.cooldown_seconds > 2_592_000 {
        Some("cooldown_seconds must not exceed 30 days"@)
    } else {
        validation::first_error(
            text::texts(spec.required_terms@) + text::texts(spec.excluded_terms@),
            |t| text_error(t, "term"@, 256),
            0,
        )
    }
}

fn require_unit_range(field: &str, value: u32) -> (r: Result<(), ValidationError>)
    ensures
        outcome(r) == if float_bits::f32_in_range(F32_ZERO, F32_ONE, value) {
            None
        } else {
            Some(unit_range_message(field@))
        },
{
    if !f32_bits_in_range(F32_ZERO, F32_ONE, value) {
        let mut message = String::from_str(field);
        message.append(" must be between 0 and 1");
        return Err(ValidationError(message));
    }
    Ok(())
}

/// Checks each term, in order; `terms` stands at `offset` in the list `all`
/// of every term of the revision.
fn validate_terms(
    terms: &Vec<String>,
    Ghost(all): Ghost<Seq<Seq<char>>>,
    Ghost(offset): Ghost<int>,
) -> (r: Result<(), ValidationError>)
    requires
        0 <= offset,
        offset + terms@.len() <= all.len(),
        forall|j: int| 0 <= j < terms@.len() ==> all[offset + j] == #[trigger] terms@[j]@,
    ensures
        match r {
            Ok(_) => validation::first_error(all, |t| text_error(t, "term"@, 256), offset)
                == validation::first_error(
                all,
                |t| text_error(t, "term"@, 256),
                offset + terms@.len(),
            ),
            Err(e) => validation::first_error(all, |t| text_error(t, "term"@, 256), offset) == Some(
                e.0@,
            ),
        },
{
    let ghost check = |t| text_error(t, "term"@, 256);
    let mut i: usize = 0;
    while i < terms.len()
        invariant
            i <= terms@.len(),
            0 <= offset,
            offset + terms@.len() <= all.len(),
            forall|j: int| 0 <= j < terms@.len() ==> all[offset + j] == #[trigger] terms@[j]@,
            check == (|t| text_error(t, "term"@, 256)),
            validation::first_error(all, check, offset) == validation::first_error(
                all,
                check,
                offset + i,
            ),
        decreases terms@.len() - i,
    {
        assert(all[offset + i] == terms@[i as int]@);
        require_text(terms[i].as_str(), "term", 256)?;
        i = i + 1;
    }
    Ok(())
}

impl AlertRuleRevisionSpec {
    /// Accepts a non-blank query of at most 16,384 bytes, a threshold and
    /// two weights between 0 and 1 whose sum is 1 (the caller passes whether
    /// `|semantic_weight + lexical_weight - 1.0| <= 0.0001` holds in `f32`
    /// arithmetic), a cooldown of at most 30 days and non-blank required and
    /// excluded terms of at most 256 bytes each.
    pub fn validate(&self, weights_sum_to_one: bool) -> (r: Result<(), ValidationError>)
        ensures
            outcome(r) == rule_revision_error(*self, weights_sum_to_one),
    {
        require_text(self.query_text.as_str(), "query_text", 16_384)?;
        require_unit_range("semantic_threshold", self.semantic_threshold)?;
        require_unit_range("semantic_weight", self.semantic_weight)?;
        require_unit_range("lexical_weight", self.lexical_weight)?;
        if !weights_sum_to_one {
            return Err(
                ValidationError(String::from_str("semantic_weight and lexical_weight must sum to 1")),
            );
        }
        if self.cooldown_seconds > 2_592_000 {
            return Err(ValidationError(String::from_str("cooldown_seconds must not exceed 30 days")));
        }
        let ghost all = text::texts(self.required_terms@) + text::texts(self.excluded_terms@);
        validate_terms(&self.required_terms, Ghost(all), Ghost(0))?;
        validate_terms(&self.excluded_terms, Ghost(all), Ghost(self.required_terms@.len() as int))?;
        Ok(())
    }
}

/// An accepted rule revision has a threshold and weights between 0 and 1, a
/// cooldown of at most 30 days, and only non-blank terms of at most 256
/// bytes, required and excluded alike.
pub proof fn lemma_accepted_rule_revision_is_bounded(spec: AlertRuleRevisionSpec, weights_sum_to_one: bool)
    requires
        rule_revision_error(spec, weights_sum_to_one) is None,
    ensures
        weights_sum_to_one,
        float_bits::f32_in_range(F32_ZERO, F32_ONE, spec.semantic_threshold),
        float_bits::f32_in_range(F32_ZERO, F32_ONE, spec.semantic_weight),
        float_bits::f32_in_range(F32_ZERO, F32_ONE, spec.lexical_weight),
        spec.cooldown_seconds <= 2_592_000,
        forall|i: int|
            0 <= i < spec.required_terms@.len() ==> text_error(
                #[trigger] spec.required_terms@[i]@,
                "term"@,
                256,
            ) is None,
        forall|i: int|
            0 <= i < spec.excluded_terms@.len() ==> text_error(
                #[trigger] spec.excluded_terms@[i]@,
                "term"@,
                256,
            ) is None,
{
    let required = text::texts(spec.required_terms@);
    let all = required + text::texts(spec.excluded_terms@);
    validation::lemma_first_error_none(all, |t| text_error(t, "term"@, 256), 0);
    assert forall|i: int| 0 <= i < spec.required_terms@.len() implies text_error(
        #[trigger] spec.required_terms@[i]@,
        "term"@,
        256,
    ) is None by {
        assert(all[i] == spec.required_terms@[i]@);
    }
    assert forall|i: int| 0 <= i < spec.excluded_terms@.len() implies text_error(
        #[trigger] spec.excluded_terms@[i]@,
        "term"@,
        256,
    ) is None by {
        assert(all[required.len() + i] == spec.excluded_terms@[i]@);
    }
}

/// A rule revision is accepted exactly when its query (at most 16,384 bytes)
/// is non-blank, its threshold and both weights are binary32 values from 0 to
/// 1, the weights sum to 1, the cooldown is at most 30 days, and every
/// required and excluded term is non-blank and at most 256 bytes.
pub proof fn lemma_rule_revision_acceptance(spec: AlertRuleRevisionSpec, weights_sum_to_one: bool)
    ensures
        rule_revision_error(spec, weights_sum_to_one) is None <==> {
            &&& text::trim(spec.query_text@).len() > 0
            &&& text::utf8_len(spec.query_text@) <= 16_384
            &&& (spec.semantic_threshold <= 0x3F80_0000 || spec.semantic_threshold == 0x8000_0000)
            &&& (spec.semantic_weight <= 0x3F80_0000 || spec.semantic_weight == 0x8000_0000)
            &&& (spec.lexical_weight <= 0x3F80_0000 || spec.lexical_weight == 0x8000_0000)
            &&& weights_sum_to_one
            &&& spec.cooldown_seconds <= 2_592_000
            &&& forall|i: int|
                0 <= i < spec.required_terms@.len() ==> text::trim(
                    #[trigger] spec.required_terms@[i]@,
                ).len() > 0 && text::utf8_len(spec.required_terms@[i]@) <= 256
            &&& forall|i: int|
                0 <= i < spec.excluded_terms@.len() ==> text::trim(
                    #[trigger] spec.excluded_terms@[i]@,
                ).len() > 0 && text::utf8_len(spec.excluded_terms@[i]@) <= 256
        },
{
    validation::lemma_required_text("query_text"@, spec.query_text@, 16_384);
    float_bits::lemma_unit_range_patterns(spec.semantic_threshold);
    float_bits::lemma_unit_range_patterns(spec.semantic_weight);
    float_bits::lemma_unit_range_patterns(spec.lexical_weight);
    let required = text::texts(spec.required_terms@);
    let all = required + text::texts(spec.excluded_terms@);
    let check = |t| text_error(t, "term"@, 256);
    assert forall|j: int| 0 <= j < all.len() implies (check(#[trigger] all[j]) is None <==> (
    text::trim(all[j]).len() > 0 && text::utf8_len(all[j]) <= 256)) by {
        validation::lemma_required_text("term"@, all[j], 256);
    }
    assert forall|i: int| 0 <= i < spec.required_terms@.len() implies #[trigger] all[i]
        == spec.required_terms@[i]@ by {}
    assert forall|i: int| 0 <= i < spec.excluded_terms@.len() implies #[trigger] all[required.len()
        + i] == spec.excluded_terms@[i]@ by {}
    if validation::first_error(all, check, 0) is None {
        validation::lemma_first_error_none(all, check, 0);
        assert forall|i: int| 0 <= i < spec.required_terms@.len() implies text::trim(
            #[trigger] spec.required_terms@[i]@,
        ).len() > 0 && text::utf8_len(spec.required_terms@[i]@) <= 256 by {
            assert(all[i] == spec.required_terms@[i]@);
        }
        assert forall|i: int| 0 <= i < spec.excluded_terms@.len() implies text::trim(
            #[trigger] spec.excluded_terms@[i]@,
        ).len() > 0 && text::utf8_len(spec.excluded_terms@[i]@) <= 256 by {
            assert(all[required.len() + i] == spec.excluded_terms@[i]@);
        }
    }
    if (forall|i: int|
        0 <= i < spec.required_terms@.len() ==> text::trim(#[trigger] spec.required_terms@[i]@).len()
            > 0 && text::utf8_len(spec.required_terms@[i]@) <= 256) && (forall|i: int|
        0 <= i < spec.excluded_terms@.len() ==> text::trim(#[trigger] spec.excluded_terms@[i]@).len()
            > 0 && text::utf8_len(spec.excluded_terms@[i]@) <= 256) {
        assert forall|j: int| 0 <= j < all.len() implies check(#[trigger] all[j]) is None by {
            if j < required.len() {
                assert(all[j] == spec.required_terms@[j]@);
            } else {
                assert(all[j] == spec.excluded_terms@[j - required.len()]@);
            }
        }
        validation::lemma_first_error_all_pass(all, check, 0);
    }
}

/// The default cooldown of a rule, in seconds: one hour.
pub fn default_cooldown_seconds() -> (seconds: u32)
    ensures
        seconds == 3_600,
{
    3_600
}

/// The state of a semantic match.
#[derive(Debug, Clone, Copy, PartialEq, Eq, Structural)]
pub enum MatchStatus {
    Candidate,
    Suppressed,
    Queued,
    Delivered,
    Dismissed,
}

/// An explainable match of a rule revision and a source revision. The
/// scores are the bit patterns of their `f32` values (`f32::to_bits`).
#[derive(Debug, Clone)]
pub struct MatchCandidate {
    pub id: Uuid,
    pub tenant_id: Uuid,
    pub identity_key: String,
    pub alert_rule_id: Uuid,
    pub alert_rule_revision_id: Uuid,
    pub source_document_id: Uuid,
    pub source_revision_id: Uuid,
    pub embedding_space_id: Option<Uuid>,
    pub semantic_score: Option<u32>,
    pub lexical_score: u32,
    pub total_score: u32,
    pub explanation: serde_json::Value,
    pub status: MatchStatus,
    pub matched_at: UtcTimestamp,
    pub suppressed_until: Option<UtcTimestamp>,
}

/// Whether a byte is an ASCII hexadecimal digit (`u8::is_ascii_hexdigit`).
pub open spec fn is_hex_digit(b: u8) -> bool {
    (0x30 <= b && b <= 0x39) || (0x41 <= b && b <= 0x46) || (0x61 <= b && b <= 0x66)
}

/// Whether a key is a SHA-256 digest in hexadecimal: 64 bytes, each an
/// ASCII hexadecimal digit.
pub open spec fn is_sha256_hex(key: Seq<char>) -> bool {
    let bytes = vstd::utf8::encode_utf8(key);
    bytes.len() == 64 && forall|i: int| 0 <= i < bytes.len() ==> is_hex_digit(#[trigger] bytes[i])
}

/// Whether an optional score lies outside `0..=1`.
pub open spec fn score_out_of_range(score: Option<u32>) -> bool {
    match score {
        Some(value) => !float_bits::f32_in_range(F32_ZERO, F32_ONE, value),
        None => false,
    }
}

/// Why a match candidate is rejected, if it is.
pub open spec fn match_candidate_error(m: MatchCandidate) -> Option<Seq<char>> {
    if !is_sha256_hex(m.identity_key@) {
        Some("identity_key must be a SHA-256 hexadecimal digest"@)
    } else if score_out_of_range(m.semantic_score) || score_out_of_range(Some(m.lexical_score))
        || score_out_of_range(Some(m.total_score)) {
        Some("scores must be between 0 and 1"@)
    } else {
        None
    }
}

fn is_hex_digit_byte(b: u8) -> (r: bool)
    ensures
        r == is_hex_digit(b),
{
    (0x30 <= b && b <= 0x39) || (0x41 <= b && b <= 0x46) || (0x61 <= b && b <= 0x66)
}

fn score_in_range(score: Option<u32>) -> (r: bool)
    ensures
        r == !score_out_of_range(score),
{
    match score {
        Some(value) => f32_bits_in_range(F32_ZERO, F32_ONE, value),
        None => true,
    }
}

impl MatchCandidate {
    /// Accepts a 64-digit hexadecimal identity key and scores between 0 and 1.
    pub fn validate(&self) -> (r: Result<(), ValidationError>)
        ensures
            outcome(r) == match_candidate_error(*self),
    {
        let bytes = self.identity_key.as_str().as_bytes();
        let mut hex = bytes.len() == 64;
        let mut i: usize = 0;
        while hex && i < bytes.len()
            invariant
                i <= bytes@.len(),
                bytes@ == vstd::utf8::encode_utf8(self.identity_key@),
                hex ==> bytes@.len() == 64 && forall|j: int| 0 <= j < i ==> is_hex_digit(
                    #[trigger] bytes@[j],
                ),
                !hex ==> !is_sha256_hex(self.identity_key@),
            decreases bytes@.len() - i,
        {
            if !is_hex_digit_byte(bytes[i]) {
                hex = false;
            }
            i = i + 1;
        }
        if !hex {
            return Err(
                ValidationError(String::from_str("identity_key must be a SHA-256 hexadecimal digest")),
            );
        }
        if !(score_in_range(self.semantic_score) && score_in_range(Some(self.lexical_score))
            && score_in_range(Some(self.total_score))) {
            return Err(ValidationError(String::from_str("scores must be between 0 and 1")));
        }
        Ok(())
    }
}

/// An accepted candidate carries a 64-digit hexadecimal identity key and
/// scores between 0 and 1.
pub proof fn lemma_accepted_candidate_is_well_keyed(m: MatchCandidate)
    requires
        match_candidate_error(m) is None,
    ensures
        is_sha256_hex(m.identity_key@),
        float_bits::f32_in_range(F32_ZERO, F32_ONE, m.lexical_score),
        float_bits::f32_in_range(F32_ZERO, F32_ONE, m.total_score),
        m.semantic_score matches Some(s) ==> float_bits::f32_in_range(F32_ZERO, F32_ONE, s),
{
}

/// A match candidate is accepted exactly when its identity key is 64 bytes,
/// each an ASCII digit or a letter from `a` to `f` in either case, and each
/// score present is a binary32 value from 0 to 1.
pub proof fn lemma_match_candidate_acceptance(m: MatchCandidate)
    ensures
        match_candidate_error(m) is None <==> {
            let bytes = vstd::utf8::encode_utf8(m.identity_key@);
            &&& bytes.len() == 64
            &&& forall|i: int|
                0 <= i < bytes.len() ==> {
                    let b = #[trigger] bytes[i];
                    (48 <= b <= 57) || (65 <= b <= 70) || (97 <= b <= 102)
                }
            &&& (m.semantic_score matches Some(x) ==> (x <= 0x3F80_0000 || x == 0x8000_0000))
            &&& (m.lexical_score <= 0x3F80_0000 || m.lexical_score == 0x8000_0000)
            &&& (m.total_score <= 0x3F80_0000 || m.total_score == 0x8000_0000)
        },
{
    if let Some(x) = m.semantic_score {
        float_bits::lemma_unit_range_patterns(x);
    }
    float_bits::lemma_unit_range_patterns(m.lexical_score);
    float_bits::lemma_unit_range_patterns(m.total_score);
}

/// The state of one delivery attempt of a match.
#[derive(Debug, Clone, Copy, PartialEq, Eq, Structural)]
pub enum DeliveryAttemptStatus {
    Pending,
    Delivering,
    Succeeded,
    RetryScheduled,
    DeadLettered,
    Cancelled,
}

/// One attempt to deliver a match to a target.
#[derive(Debug, Clone, PartialEq)]
pub struct DeliveryAttempt {
    pub id: Uuid,
    pub tenant_id: Uuid,
    pub match_id: Uuid,
    pub delivery_target_id: Uuid,
    pub idempotency_key: String,
    pub attempt: u32,
    pub status: DeliveryAttemptStatus,
    pub next_attempt_at: Option<UtcTimestamp>,
    pub provider_reference: Option<String>,
    pub response_status: Option<u16>,
    pub error_class: Option<String>,
    pub created_at: UtcTimestamp,
    pub updated_at: UtcTimestamp,
}

} // verus!
