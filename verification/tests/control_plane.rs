use eal_interfaces::{
    default_crawl_interval_seconds, default_discovery_modes, default_max_depth,
    default_max_pages_per_run, default_min_similarity, default_path_prefixes, default_search_limit,
    default_true,
    AlertRuleStatus, CreateAlertRule, CreateSourcePolicy, DiscoveryMode, EmbeddingPayload,
    EmbeddingSearchRequest, PageIngestRequest, UtcTimestamp, ValidationError,
    VectorNormalization,
};
use uuid::Uuid;

fn valid_source() -> CreateSourcePolicy {
    CreateSourcePolicy {
        name: "Rust blog".into(),
        root_url: "https://blog.rust-lang.org/".into(),
        allowed_hosts: vec!["blog.rust-lang.org".into()],
        allowed_path_prefixes: vec!["/".into()],
        include_subdomains: false,
        discovery_modes: vec![DiscoveryMode::Sitemap, DiscoveryMode::Rss],
        crawl_interval_seconds: 900,
        max_depth: 3,
        max_pages_per_run: 500,
        obey_robots: true,
        enabled: true,
    }
}

fn reason(result: Result<(), ValidationError>) -> String {
    result.unwrap_err().0
}

#[test]
fn source_policy_requires_explicit_public_hosts_and_robots() {
    assert!(valid_source().validate().is_ok());

    let mut source = valid_source();
    source.allowed_hosts = vec!["*.example.com".into()];
    assert!(source.validate().is_err());

    let mut source = valid_source();
    source.obey_robots = false;
    assert!(source.validate().is_err());
}

#[test]
fn source_policy_reasons_name_the_first_fault() {
    let mut s = valid_source();
    s.name = "  ".into();
    s.root_url = "ftp://x".into();
    assert_eq!(reason(s.validate()), "name must not be empty");

    let mut s = valid_source();
    s.name = "n".repeat(257);
    assert_eq!(reason(s.validate()), "name exceeds 256 bytes");
    s.name = "é".repeat(128);
    assert!(s.validate().is_ok());
    s.name = "é".repeat(129);
    assert_eq!(reason(s.validate()), "name exceeds 256 bytes");

    let mut s = valid_source();
    s.root_url = "ftp://blog.rust-lang.org/".into();
    assert_eq!(reason(s.validate()), "root_url must be an absolute http or https URL");
    s.root_url = "  http://blog.rust-lang.org/ ".into();
    assert!(s.validate().is_ok());
    s.root_url = "https://user@blog.rust-lang.org/".into();
    assert_eq!(reason(s.validate()), "root_url must not contain URL credentials");

    let mut s = valid_source();
    s.allowed_hosts = Vec::new();
    assert_eq!(reason(s.validate()), "allowed_hosts must contain at least one exact host");
    s.allowed_hosts = (0..65).map(|i| format!("h{i}.example.com")).collect();
    assert_eq!(reason(s.validate()), "allowed_hosts must contain at most 64 hosts");
    s.allowed_hosts.pop();
    assert!(s.validate().is_ok());

    let mut s = valid_source();
    s.allowed_path_prefixes = Vec::new();
    assert_eq!(reason(s.validate()), "allowed_path_prefixes must contain at least one path");
    s.allowed_path_prefixes = vec!["/".into(); 129];
    assert_eq!(reason(s.validate()), "allowed_path_prefixes must contain at most 128 paths");
    s.allowed_path_prefixes = vec!["/blog".into(), "news".into(), "/a#b".into()];
    assert_eq!(
        reason(s.validate()),
        "allowed path prefix must start with '/' and omit fragments: news"
    );
    s.allowed_path_prefixes = vec!["/a#b".into()];
    assert_eq!(
        reason(s.validate()),
        "allowed path prefix must start with '/' and omit fragments: /a#b"
    );

    let mut s = valid_source();
    s.discovery_modes = Vec::new();
    assert_eq!(reason(s.validate()), "discovery_modes must contain at least one mode");

    let mut s = valid_source();
    s.crawl_interval_seconds = 59;
    assert_eq!(reason(s.validate()), "crawl_interval_seconds must be between 60 and 604800");
    s.crawl_interval_seconds = 604_800;
    assert!(s.validate().is_ok());

    let mut s = valid_source();
    s.max_depth = 17;
    assert_eq!(reason(s.validate()), "max_depth must be at most 16");

    let mut s = valid_source();
    s.max_pages_per_run = 0;
    assert_eq!(reason(s.validate()), "max_pages_per_run must be between 1 and 10000");
    s.max_pages_per_run = 10_001;
    assert!(s.validate().is_err());

    let mut s = valid_source();
    s.obey_robots = false;
    assert_eq!(reason(s.validate()), "obey_robots cannot be disabled for public-page indexing");
}

#[test]
fn hosts_must_be_exact_public_names() {
    let check = |host: &str| {
        let mut s = valid_source();
        s.allowed_hosts = vec![host.into()];
        s.validate()
    };
    for bad in [
        "", " ", "...", "localhost", "LocalHost.", " localhost. ", "example", "example.com/path",
        "example.com:8080", "*.example.com", "user@example.com", "127.0.0.1", " 10.0.0.1. ",
        "[::1]", "1.2",
    ] {
        assert_eq!(
            reason(check(bad)),
            format!("allowed host must be an exact public DNS name: {bad}")
        );
    }
    for good in [
        "example.com", " Example.COM. ", "a.b.c.example.org", "localhost.example.com",
        "1.2.3.example", "123.com",
    ] {
        assert!(check(good).is_ok(), "{good}");
    }
}

#[test]
fn source_policy_defaults() {
    assert!(default_true());
    assert_eq!(default_path_prefixes(), vec!["/".to_string()]);
    assert_eq!(default_discovery_modes(), vec![DiscoveryMode::Sitemap, DiscoveryMode::Rss]);
    assert_eq!(default_crawl_interval_seconds(), 900);
    assert_eq!(default_max_depth(), 3);
    assert_eq!(default_max_pages_per_run(), 1_000);
    assert_eq!(default_search_limit(), 50);
    assert_eq!(default_min_similarity(), 0.78f32.to_bits());
    let mut s = valid_source();
    s.allowed_path_prefixes = default_path_prefixes();
    s.discovery_modes = default_discovery_modes();
    s.crawl_interval_seconds = default_crawl_interval_seconds();
    s.max_depth = default_max_depth();
    s.max_pages_per_run = default_max_pages_per_run();
    s.obey_robots = default_true();
    assert!(s.validate().is_ok());
}

fn valid_rule() -> CreateAlertRule {
    CreateAlertRule {
        title: "Solar".into(),
        summary: String::new(),
        query: "solar panels".into(),
        threshold: 0.5f32.to_bits(),
        delivery_channel: "email".into(),
        enabled: true,
    }
}

#[test]
fn alert_rule_validation() {
    assert!(valid_rule().validate().is_ok());
    let mut r = valid_rule();
    r.title = "\n".into();
    assert_eq!(reason(r.validate()), "title must not be empty");
    let mut r = valid_rule();
    r.summary = "s".repeat(4_001);
    assert_eq!(reason(r.validate()), "summary exceeds 4000 bytes");
    let mut r = valid_rule();
    r.query = String::new();
    assert_eq!(reason(r.validate()), "query must not be empty");
    let mut r = valid_rule();
    r.threshold = 1.5f32.to_bits();
    assert_eq!(reason(r.validate()), "threshold must be between 0 and 1");
    r.threshold = f32::NAN.to_bits();
    assert!(r.validate().is_err());
    r.threshold = (-0.0f32).to_bits();
    assert!(r.validate().is_ok());
    r.threshold = 1.0f32.to_bits();
    assert!(r.validate().is_ok());
    r.threshold = (-0.001f32).to_bits();
    assert!(r.validate().is_err());
    let mut r = valid_rule();
    r.delivery_channel = "c".repeat(257);
    assert_eq!(reason(r.validate()), "delivery_channel exceeds 256 bytes");
}

#[test]
fn into_record_makes_a_draft_created_now() {
    let id = Uuid::new_v4();
    let now = UtcTimestamp { seconds: 1_786_000_000, nanos: 5 };
    let rule = valid_rule().into_record(id, now).unwrap();
    assert_eq!(rule.id, id);
    assert_eq!(rule.title, "Solar");
    assert_eq!(rule.query, "solar panels");
    assert_eq!(rule.threshold, 0.5f32.to_bits());
    assert_eq!(rule.status, AlertRuleStatus::Draft);
    assert_eq!(rule.status, AlertRuleStatus::default());
    assert_eq!(rule.created_at, now);
    assert_eq!(rule.updated_at, now);
    let copy = rule.clone();
    assert_eq!(copy.id, id);
    assert_eq!(copy.created_at, now);
    let mut bad = valid_rule();
    bad.threshold = 2.0f32.to_bits();
    assert_eq!(
        bad.into_record(id, now).unwrap_err(),
        ValidationError("threshold must be between 0 and 1".into())
    );
}

fn payload(values: Vec<f32>, dimensions: u32) -> EmbeddingPayload {
    EmbeddingPayload {
        model: "example".into(),
        model_version: "v1".into(),
        dimensions,
        normalization: VectorNormalization::L2,
        values: values.into_iter().map(f32::to_bits).collect(),
    }
}

#[test]
fn embedding_payload_cannot_hide_dimension_or_nan_mismatch() {
    let payload = EmbeddingPayload {
        model: "example".into(),
        model_version: "2026-08-01".into(),
        dimensions: 3,
        normalization: VectorNormalization::UnitLength,
        values: vec![0.1f32.to_bits(), 0.2f32.to_bits()],
    };
    assert!(payload.validate().is_err());

    let payload = EmbeddingPayload {
        values: vec![0.1f32.to_bits(), f32::NAN.to_bits(), 0.3f32.to_bits()],
        ..payload
    };
    assert!(payload.validate().is_err());
}

#[test]
fn embedding_payload_reasons() {
    assert!(payload(vec![0.1, -0.2, 0.3], 3).validate().is_ok());
    assert_eq!(
        reason(payload(vec![0.1, 0.2], 3).validate()),
        "embedding length 2 does not match dimensions 3"
    );
    assert_eq!(
        reason(payload(vec![0.0; 12], 1_000).validate()),
        "embedding length 12 does not match dimensions 1000"
    );
    assert_eq!(reason(payload(Vec::new(), 0).validate()), "dimensions must be between 1 and 65535");
    assert_eq!(
        reason(payload(Vec::new(), 65_536).validate()),
        "dimensions must be between 1 and 65535"
    );
    assert_eq!(
        reason(payload(vec![0.1, f32::NEG_INFINITY], 2).validate()),
        "embedding values must all be finite"
    );
    let mut p = payload(vec![0.1], 1);
    p.model = " ".into();
    assert_eq!(reason(p.validate()), "model must not be empty");
    let mut p = payload(vec![0.1], 1);
    p.model_version = "v".repeat(257);
    assert_eq!(reason(p.validate()), "model_version exceeds 256 bytes");
}

#[test]
fn search_is_bounded() {
    let request = EmbeddingSearchRequest {
        embedding: EmbeddingPayload {
            model: "example".into(),
            model_version: "v1".into(),
            dimensions: 3,
            normalization: VectorNormalization::L2,
            values: vec![0.1f32.to_bits(), 0.2f32.to_bits(), 0.3f32.to_bits()],
        },
        min_similarity: 0.78f32.to_bits(),
        limit: 201,
        cursor: None,
        source_ids: vec![],
    };
    assert!(request.validate().is_err());
}

#[test]
fn search_request_reasons() {
    let request = |min_similarity: f32, limit: u16, sources: usize| EmbeddingSearchRequest {
        embedding: payload(vec![0.1, 0.2, 0.3], 3),
        min_similarity: min_similarity.to_bits(),
        limit,
        cursor: None,
        source_ids: (0..sources).map(|_| Uuid::new_v4()).collect(),
    };
    assert!(request(0.78, 50, 100).validate().is_ok());
    assert!(request(0.0, 1, 0).validate().is_ok());
    assert!(request(1.0, 200, 0).validate().is_ok());
    assert_eq!(reason(request(1.01, 50, 0).validate()), "min_similarity must be between 0 and 1");
    assert_eq!(reason(request(0.5, 0, 0).validate()), "limit must be between 1 and 200");
    assert_eq!(reason(request(0.5, 201, 0).validate()), "limit must be between 1 and 200");
    assert_eq!(reason(request(0.5, 50, 101).validate()), "source_ids must contain at most 100 IDs");
    let mut bad = request(0.5, 50, 0);
    bad.embedding = payload(vec![0.1], 3);
    assert_eq!(reason(bad.validate()), "embedding length 1 does not match dimensions 3");
}

fn page() -> PageIngestRequest {
    let at = UtcTimestamp { seconds: 1_700_000_000, nanos: 0 };
    PageIngestRequest {
        source_id: Uuid::new_v4(),
        url: "https://example.com/a".into(),
        final_url: "https://example.com/b".into(),
        title: Some("A".into()),
        content_text: "Some page text.".into(),
        content_type: "text/html".into(),
        http_status: 200,
        published_at: None,
        fetched_at: at,
        embedding: payload(vec![0.1, 0.2], 2),
    }
}

#[test]
fn page_ingest_validation() {
    assert!(page().validate().is_ok());
    let mut p = page();
    p.url = "example.com".into();
    assert_eq!(reason(p.validate()), "url must be an absolute http or https URL");
    let mut p = page();
    p.final_url = "http://a:b@example.com".into();
    assert_eq!(reason(p.validate()), "final_url must not contain URL credentials");
    let mut p = page();
    p.content_text = "\u{2003}".into();
    assert_eq!(reason(p.validate()), "content_text must not be empty");
    let mut p = page();
    p.content_type = "t".repeat(257);
    assert_eq!(reason(p.validate()), "content_type exceeds 256 bytes");
    let mut p = page();
    p.http_status = 404;
    assert_eq!(
        reason(p.validate()),
        "http_status must represent a successful or redirect response"
    );
    p.http_status = 399;
    assert!(p.validate().is_ok());
    p.http_status = 199;
    assert!(p.validate().is_err());
    let mut p = page();
    p.embedding = payload(vec![f32::NAN, 0.2], 2);
    assert_eq!(reason(p.validate()), "embedding values must all be finite");
}

#[test]
fn validation_error_display_text() {
    let err = ValidationError("limit must be between 1 and 200".into());
    assert_eq!(err.to_display_string(), "limit must be between 1 and 200");
}
