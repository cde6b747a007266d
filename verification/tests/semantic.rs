use eal_interfaces::semantic::{
    default_cooldown_seconds, default_poll_interval_seconds, default_true, AlertRuleRevisionSpec,
    CreateSource, EmbeddingNormalization, EmbeddingSpace, EmbeddingVector, MatchCandidate,
    MatchStatus, SourceKind, ValidationError, CONTRACT_VERSION,
};
use eal_interfaces::UtcTimestamp;
use chrono::Utc;
use serde_json::Value;
use uuid::Uuid;

fn timestamp_now() -> UtcTimestamp {
    let now = Utc::now();
    UtcTimestamp { seconds: now.timestamp(), nanos: now.timestamp_subsec_nanos() }
}

fn reason(result: Result<(), ValidationError>) -> String {
    result.unwrap_err().0
}

#[test]
fn rejects_non_http_sources() {
    let source = CreateSource {
        kind: SourceKind::WebPage,
        name: "unsafe".into(),
        url: "file:///etc/passwd".into(),
        poll_interval_seconds: 300,
        enabled: true,
        public_config: Value::Null,
        credential_reference: None,
    };
    assert!(source.validate().is_err());
}

#[test]
fn rejects_cross_dimension_vectors() {
    let vector = EmbeddingVector {
        space: EmbeddingSpace {
            id: Uuid::new_v4(),
            provider: "local".into(),
            model: "mini".into(),
            model_version: "1".into(),
            dimensions: 3,
            normalization: EmbeddingNormalization::L2,
        },
        values: vec![0.1f32.to_bits(), 0.2f32.to_bits()],
        generated_at: timestamp_now(),
    };
    assert!(vector.validate().is_err());
}

fn source() -> CreateSource {
    CreateSource {
        kind: SourceKind::Rss,
        name: "feed".into(),
        url: "https://example.com/feed.xml".into(),
        poll_interval_seconds: default_poll_interval_seconds(),
        enabled: default_true(),
        public_config: Value::Null,
        credential_reference: None,
    }
}

#[test]
fn create_source_reasons() {
    assert!(source().validate().is_ok());
    let mut s = source();
    s.name = String::new();
    assert_eq!(reason(s.validate()), "name must not be empty");
    let mut s = source();
    s.url = format!("https://example.com/{}", "a".repeat(8_200));
    assert_eq!(reason(s.validate()), "url exceeds 8192 bytes");
    let mut s = source();
    s.url = " https://example.com".into();
    assert_eq!(reason(s.validate()), "url must use http or https");
    s.url = "http://example.com".into();
    assert!(s.validate().is_ok());
    let mut s = source();
    s.poll_interval_seconds = 604_801;
    assert_eq!(reason(s.validate()), "poll_interval_seconds must be between 60 and 604800");
    let mut s = source();
    s.credential_reference = Some(" ".into());
    assert_eq!(reason(s.validate()), "credential_reference must not be empty");
    s.credential_reference = Some("vault://feeds/1".into());
    assert!(s.validate().is_ok());
    s.credential_reference = Some("r".repeat(2_049));
    assert_eq!(reason(s.validate()), "credential_reference exceeds 2048 bytes");
}

fn vector(dimensions: u16, values: Vec<f32>) -> EmbeddingVector {
    EmbeddingVector {
        space: EmbeddingSpace {
            id: Uuid::new_v4(),
            provider: "local".into(),
            model: "mini".into(),
            model_version: "1".into(),
            dimensions,
            normalization: EmbeddingNormalization::Unnormalized,
        },
        values: values.into_iter().map(f32::to_bits).collect(),
        generated_at: timestamp_now(),
    }
}

#[test]
fn embedding_vector_reasons() {
    assert!(vector(2, vec![0.5, -0.5]).validate().is_ok());
    assert_eq!(reason(vector(2, vec![0.5]).validate()), "embedding dimension mismatch");
    assert_eq!(reason(vector(0, Vec::new()).validate()), "dimensions must be between 1 and 32768");
    assert_eq!(
        reason(vector(32_769, Vec::new()).validate()),
        "dimensions must be between 1 and 32768"
    );
    assert_eq!(
        reason(vector(2, vec![0.5, f32::INFINITY]).validate()),
        "embedding values must all be finite"
    );
    let mut v = vector(1, vec![0.5]);
    v.space.provider = "p".repeat(129);
    assert_eq!(reason(v.validate()), "provider exceeds 128 bytes");
    let mut v = vector(1, vec![0.5]);
    v.space.model_version = "".into();
    assert_eq!(reason(v.validate()), "model_version must not be empty");
}

fn revision() -> AlertRuleRevisionSpec {
    AlertRuleRevisionSpec {
        query_text: "solar tooling launches".into(),
        embedding_space_id: Some(Uuid::new_v4()),
        semantic_threshold: 0.7f32.to_bits(),
        semantic_weight: 0.6f32.to_bits(),
        lexical_weight: 0.4f32.to_bits(),
        required_terms: vec!["solar".into()],
        excluded_terms: vec!["rumor".into()],
        source_ids: Vec::new(),
        cooldown_seconds: default_cooldown_seconds(),
    }
}

#[test]
fn rule_revision_reasons() {
    assert!(revision().validate(true).is_ok());
    assert_eq!(
        reason(revision().validate(false)),
        "semantic_weight and lexical_weight must sum to 1"
    );
    let mut r = revision();
    r.query_text = "\t".into();
    assert_eq!(reason(r.validate(true)), "query_text must not be empty");
    let mut r = revision();
    r.semantic_threshold = 1.2f32.to_bits();
    r.lexical_weight = f32::NAN.to_bits();
    assert_eq!(reason(r.validate(false)), "semantic_threshold must be between 0 and 1");
    let mut r = revision();
    r.semantic_weight = (-0.5f32).to_bits();
    assert_eq!(reason(r.validate(true)), "semantic_weight must be between 0 and 1");
    let mut r = revision();
    r.lexical_weight = f32::NAN.to_bits();
    assert_eq!(reason(r.validate(true)), "lexical_weight must be between 0 and 1");
    let mut r = revision();
    r.cooldown_seconds = 2_592_001;
    assert_eq!(reason(r.validate(true)), "cooldown_seconds must not exceed 30 days");
    r.cooldown_seconds = 2_592_000;
    assert!(r.validate(true).is_ok());
    let mut r = revision();
    r.required_terms.push(" ".into());
    r.excluded_terms.push("t".repeat(300));
    assert_eq!(reason(r.validate(true)), "term must not be empty");
    let mut r = revision();
    r.excluded_terms.push("t".repeat(300));
    assert_eq!(reason(r.validate(true)), "term exceeds 256 bytes");
}

fn candidate(key: &str) -> MatchCandidate {
    let id = Uuid::new_v4();
    MatchCandidate {
        id,
        tenant_id: id,
        identity_key: key.into(),
        alert_rule_id: id,
        alert_rule_revision_id: id,
        source_document_id: id,
        source_revision_id: id,
        embedding_space_id: None,
        semantic_score: None,
        lexical_score: 0.4f32.to_bits(),
        total_score: 0.4f32.to_bits(),
        explanation: Value::Null,
        status: MatchStatus::Candidate,
        matched_at: timestamp_now(),
        suppressed_until: None,
    }
}

#[test]
fn match_candidate_reasons() {
    let key = "0123456789abcdefABCDEF0123456789abcdefABCDEF0123456789abcdef0123";
    assert_eq!(key.len(), 64);
    assert!(candidate(key).validate().is_ok());
    for bad in [&key[..63], "g".repeat(64).as_str(), &format!("{key}0")] {
        assert_eq!(
            reason(candidate(bad).validate()),
            "identity_key must be a SHA-256 hexadecimal digest"
        );
    }
    let mut accented = "é".to_string();
    accented.push_str(&key[..62]);
    assert_eq!(accented.len(), 64);
    assert!(candidate(&accented).validate().is_err());
    let mut c = candidate(key);
    c.semantic_score = Some(1.5f32.to_bits());
    assert_eq!(reason(c.validate()), "scores must be between 0 and 1");
    let mut c = candidate(key);
    c.total_score = f32::NAN.to_bits();
    assert_eq!(reason(c.validate()), "scores must be between 0 and 1");
    let mut c = candidate(key);
    c.semantic_score = Some(1.0f32.to_bits());
    assert!(c.validate().is_ok());
}

#[test]
fn semantic_defaults_and_version() {
    assert_eq!(default_poll_interval_seconds(), 900);
    assert!(default_true());
    assert_eq!(default_cooldown_seconds(), 3_600);
    assert_eq!(CONTRACT_VERSION, "2026-08-10");
    assert_eq!(
        ValidationError("embedding dimension mismatch".into()).to_display_string(),
        "embedding dimension mismatch"
    );
}
