//! Crawl policies of tenant-registered sources: the request that creates one,
//! its validation and its defaults.
use vstd::prelude::*;

use crate::text::{self, chars_of, range_contains};
use crate::validation::{self, require_http_url_shape, require_non_empty, validate_host, ValidationError};
use crate::UtcTimestamp;
use uuid::Uuid;

verus! {

broadcast use vstd::seq_lib::group_seq_properties;

/// How a source's pages are discovered.
#[derive(Debug, Clone, Copy, PartialEq, Eq, Structural)]
pub enum DiscoveryMode {
    Manual,
    Sitemap,
    Rss,
    Atom,
    ExternalIndexCandidates,
}

/// A stored crawl policy of a tenant's source.
#[derive(Debug, Clone)]
pub struct SourcePolicy {
    pub id: Uuid,
    pub tenant_id: Uuid,
    pub name: String,
    pub root_url: String,
    pub allowed_hosts: Vec<String>,
    pub allowed_path_prefixes: Vec<String>,
    pub include_subdomains: bool,
    pub discovery_modes: Vec<DiscoveryMode>,
    pub crawl_interval_seconds: u32,
    pub max_depth: u8,
    pub max_pages_per_run: u32,
    pub obey_robots: bool,
    pub enabled: bool,
    pub created_at: UtcTimestamp,
    pub updated_at: UtcTimestamp,
}

/// A request to register a crawl policy.
#[derive(Debug, Clone)]
pub struct CreateSourcePolicy {
    pub name: String,
    pub root_url: String,
    pub allowed_hosts: Vec<String>,
    pub allowed_path_prefixes: Vec<String>,
    pub include_subdomains: bool,
    pub discovery_modes: Vec<DiscoveryMode>,
    pub crawl_interval_seconds: u32,
    pub max_depth: u8,
    pub max_pages_per_run: u32,
    pub obey_robots: bool,
    pub enabled: bool,
}

/// Why a path prefix is rejected, if it is: it must start with `/` and hold
/// no fragment.
pub open spec fn path_prefix_error(path: Seq<char>) -> Option<Seq<char>> {
    if !(path.len() > 0 && path[0] == '/') || path.contains('#') {
        Some("allowed path prefix must start with '/' and omit fragments: "@ + path)
    } else {
        None
    }
}

/// Why a create-policy request is rejected, if it is: the first check that
/// fails, in the order the request's fields are checked.
pub open spec fn source_policy_error(req: CreateSourcePolicy) -> Option<Seq<char>> {
    let hosts = req.allowed_hosts@.len();
    let paths = req.allowed_path_prefixes@.len();
    if validation::non_empty_error("name"@, req.name@, 256) is Some {
        validation::non_empty_error("name"@, req.name@, 256)
    } else if validation::url_shape_error("root_url"@, req.root_url@) is Some {
        validation::url_shape_error("root_url"@, req.root_url@)
    } else if hosts == 0 {
        Some("allowed_hosts must contain at least one exact host"@)
    } else if hosts > 64 {
        Some("allowed_hosts must contain at most 64 hosts"@)
    } else if validation::first_error(text::texts(req.allowed_hosts@), |h| validation::host_error(h), 0) is Some {
        validation::first_error(text::texts(req.allowed_hosts@), |h| validation::host_error(h), 0)
    } else if paths == 0 {
        Some("allowed_path_prefixes must contain at least one path"@)
    } else if paths > 128 {
        Some("allowed_path_prefixes must contain at most 128 paths"@)
    } else if validation::first_error(text::texts(req.allowed_path_prefixes@), |p| path_prefix_error(p), 0) is Some {
        validation::first_error(text::texts(req.allowed_path_prefixes@), |p| path_prefix_error(p), 0)
    } else if req.discovery_modes@.len() == 0 {
        Some("discovery_modes must contain at least one mode"@)
    } else if !(60 <= req.crawl_interval_seconds && req.crawl_interval_seconds <= 604_800) {
        Some("crawl_interval_seconds must be between 60 and 604800"@)
    } else if req.max_depth > 16 {
        Some("max_depth must be at most 16"@)
    } else if !(1 <= req.max_pages_per_run && req.max_pages_per_run <= 10_000) {
        Some("max_pages_per_run must be between 1 and 10000"@)
    } else if !req.obey_robots {
        Some("obey_robots cannot be disabled for public-page indexing"@)
    } else {
        None
    }
}

fn validate_hosts(hosts: &Vec<String>) -> (r: Result<(), ValidationError>)
    ensures
        validation::outcome(r) == validation::first_error(text::texts(hosts@), |h| validation::host_error(h), 0),
{
    let ghost items = text::texts(hosts@);
    let ghost check = |h| validation::host_error(h);
    let mut i: usize = 0;
    while i < hosts.len()
        invariant
            i <= hosts@.len() == items.len(),
            items == text::texts(hosts@),
            check == (|h| validation::host_error(h)),
            validation::first_error(items, check, 0) == validation::first_error(items, check, i as int),
        decreases hosts@.len() - i,
    {
        assert(items[i as int] == hosts@[i as int]@);
        validate_host(hosts[i].as_str())?;
        i = i + 1;
    }
    Ok(())
}

fn validate_path_prefix(path: &str) -> (r: Result<(), ValidationError>)
    ensures
        validation::outcome(r) == path_prefix_error(path@),
{
    let chars = chars_of(path);
    if !(chars.len() > 0 && chars[0] == '/') || range_contains(&chars, 0, chars.len(), '#') {
        let mut message = String::from_str("allowed path prefix must start with '/' and omit fragments: ");
        message.append(path);
        return Err(ValidationError(message));
    }
    assert(chars@.subrange(0, chars@.len() as int) =~= chars@);
    Ok(())
}

fn validate_path_prefixes(paths: &Vec<String>) -> (r: Result<(), ValidationError>)
    ensures
        validation::outcome(r) == validation::first_error(text::texts(paths@), |p| path_prefix_error(p), 0),
{
    let ghost items = text::texts(paths@);
    let ghost check = |p| path_prefix_error(p);
    let mut i: usize = 0;
    while i < paths.len()
        invariant
            i <= paths@.len() == items.len(),
            items == text::texts(paths@),
            check == (|p| path_prefix_error(p)),
            validation::first_error(items, check, 0) == validation::first_error(items, check, i as int),
        decreases paths@.len() - i,
    {
        assert(items[i as int] == paths@[i as int]@);
        validate_path_prefix(paths[i].as_str())?;
        i = i + 1;
    }
    Ok(())
}

impl CreateSourcePolicy {
    /// Accepts a non-blank name, an http(s) root URL without credentials, 1
    /// to 64 exact public hosts, 1 to 128 path prefixes that start with `/`
    /// and hold no fragment, at least one discovery mode, a crawl interval of
    /// 60 to 604,800 seconds, a depth of at most 16, 1 to 10,000 pages per run
    /// and robots.txt obeyed.
    pub fn validate(&self) -> (r: Result<(), ValidationError>)
        ensures
            validation::outcome(r) == source_policy_error(*self),
    {
        require_non_empty("name", self.name.as_str(), 256)?;
        require_http_url_shape("root_url", self.root_url.as_str())?;
        if self.allowed_hosts.len() == 0 {
            return Err(ValidationError(String::from_str("allowed_hosts must contain at least one exact host")));
        }
        if self.allowed_hosts.len() > 64 {
            return Err(ValidationError(String::from_str("allowed_hosts must contain at most 64 hosts")));
        }
        validate_hosts(&self.allowed_hosts)?;
        if self.allowed_path_prefixes.len() == 0 {
            return Err(
                ValidationError(String::from_str("allowed_path_prefixes must contain at least one path")),
            );
        }
        if self.allowed_path_prefixes.len() > 128 {
            return Err(
                ValidationError(String::from_str("allowed_path_prefixes must contain at most 128 paths")),
            );
        }
        validate_path_prefixes(&self.allowed_path_prefixes)?;
        if self.discovery_modes.len() == 0 {
            return Err(ValidationError(String::from_str("discovery_modes must contain at least one mode")));
        }
        if !(60 <= self.crawl_interval_seconds && self.crawl_interval_seconds <= 604_800) {
            return Err(
                ValidationError(String::from_str("crawl_interval_seconds must be between 60 and 604800")),
            );
        }
        if self.max_depth > 16 {
            return Err(ValidationError(String::from_str("max_depth must be at most 16")));
        }
        if !(1 <= self.max_pages_per_run && self.max_pages_per_run <= 10_000) {
            return Err(
                ValidationError(String::from_str("max_pages_per_run must be between 1 and 10000")),
            );
        }
        if !self.obey_robots {
            return Err(
                ValidationError(String::from_str("obey_robots cannot be disabled for public-page indexing")),
            );
        }
        Ok(())
    }
}

/// An accepted policy obeys robots.txt, stays within its limits, starts at
/// an http(s) URL without credentials, and names only exact public hosts and
/// path prefixes that start with `/` and carry no fragment.
pub proof fn lemma_accepted_source_policy_is_scoped(req: CreateSourcePolicy)
    requires
        source_policy_error(req) is None,
    ensures
        req.obey_robots,
        text::starts_with(text::trim(req.root_url@), "https://"@) || text::starts_with(
            text::trim(req.root_url@),
            "http://"@,
        ),
        !text::trim(req.root_url@).contains('@'),
        1 <= req.allowed_hosts@.len() <= 64,
        1 <= req.allowed_path_prefixes@.len() <= 128,
        req.discovery_modes@.len() >= 1,
        60 <= req.crawl_interval_seconds <= 604_800,
        req.max_depth <= 16,
        1 <= req.max_pages_per_run <= 10_000,
        forall|i: int|
            0 <= i < req.allowed_hosts@.len() ==> validation::is_exact_public_host(
                #[trigger] req.allowed_hosts@[i]@,
            ),
        forall|i: int|
            0 <= i < req.allowed_path_prefixes@.len() ==> {
                let p = #[trigger] req.allowed_path_prefixes@[i]@;
                p.len() > 0 && p[0] == '/' && !p.contains('#')
            },
{
    let hosts = text::texts(req.allowed_hosts@);
    let paths = text::texts(req.allowed_path_prefixes@);
    validation::lemma_first_error_none(hosts, |h| validation::host_error(h), 0);
    validation::lemma_first_error_none(paths, |p| path_prefix_error(p), 0);
    assert forall|i: int| 0 <= i < req.allowed_hosts@.len() implies validation::is_exact_public_host(
        #[trigger] req.allowed_hosts@[i]@,
    ) by {
        assert(hosts[i] == req.allowed_hosts@[i]@);
    }
    assert forall|i: int| 0 <= i < req.allowed_path_prefixes@.len() implies {
        let p = #[trigger] req.allowed_path_prefixes@[i]@;
        p.len() > 0 && p[0] == '/' && !p.contains('#')
    } by {
        assert(paths[i] == req.allowed_path_prefixes@[i]@);
    }
}

/// A create-policy request is accepted exactly when its name is non-blank
/// and at most 256 bytes, its root URL, trimmed, is an absolute http(s) URL
/// without credentials, it names 1 to 64 hosts that are all exact public
/// hosts and 1 to 128 path prefixes that all start with `/` and hold no `#`,
/// at least one discovery mode, a crawl interval of 60 to 604,800 seconds, a
/// depth of at most 16, 1 to 10,000 pages per run, and it obeys robots.txt.
pub proof fn lemma_source_policy_acceptance(req: CreateSourcePolicy)
    ensures
        source_policy_error(req) is None <==> {
            &&& text::trim(req.name@).len() > 0
            &&& text::utf8_len(req.name@) <= 256
            &&& (text::starts_with(text::trim(req.root_url@), "https://"@) || text::starts_with(
                text::trim(req.root_url@),
                "http://"@,
            ))
            &&& !text::trim(req.root_url@).contains('@')
            &&& 1 <= req.allowed_hosts@.len() <= 64
            &&& forall|i: int|
                0 <= i < req.allowed_hosts@.len() ==> validation::is_exact_public_host(
                    #[trigger] req.allowed_hosts@[i]@,
                )
            &&& 1 <= req.allowed_path_prefixes@.len() <= 128
            &&& forall|i: int|
                0 <= i < req.allowed_path_prefixes@.len() ==> {
                    let p = #[trigger] req.allowed_path_prefixes@[i]@;
                    p.len() > 0 && p[0] == '/' && !p.contains('#')
                }
            &&& req.discovery_modes@.len() >= 1
            &&& 60 <= req.crawl_interval_seconds <= 604_800
            &&& req.max_depth <= 16
            &&& 1 <= req.max_pages_per_run <= 10_000
            &&& req.obey_robots
        },
{
    validation::lemma_required_text("name"@, req.name@, 256);
    let hosts = text::texts(req.allowed_hosts@);
    let paths = text::texts(req.allowed_path_prefixes@);
    let host_check = |h| validation::host_error(h);
    let path_check = |p| path_prefix_error(p);
    assert forall|i: int| 0 <= i < req.allowed_hosts@.len() implies #[trigger] hosts[i]
        == req.allowed_hosts@[i]@ by {}
    assert forall|i: int| 0 <= i < req.allowed_path_prefixes@.len() implies #[trigger] paths[i]
        == req.allowed_path_prefixes@[i]@ by {}
    if source_policy_error(req) is None {
        lemma_accepted_source_policy_is_scoped(req);
    }
    if (forall|i: int|
        0 <= i < req.allowed_hosts@.len() ==> validation::is_exact_public_host(
            #[trigger] req.allowed_hosts@[i]@,
        )) {
        assert forall|j: int| 0 <= j < hosts.len() implies host_check(#[trigger] hosts[j]) is None by {
            assert(hosts[j] == req.allowed_hosts@[j]@);
        }
        validation::lemma_first_error_all_pass(hosts, host_check, 0);
    }
    if (forall|i: int|
        0 <= i < req.allowed_path_prefixes@.len() ==> {
            let p = #[trigger] req.allowed_path_prefixes@[i]@;
            p.len() > 0 && p[0] == '/' && !p.contains('#')
        }) {
        assert forall|j: int| 0 <= j < paths.len() implies path_check(#[trigger] paths[j]) is None by {
            assert(paths[j] == req.allowed_path_prefixes@[j]@);
        }
        validation::lemma_first_error_all_pass(paths, path_check, 0);
    }
}

/// The default of flags that are on unless a request says otherwise.
pub fn default_true() -> (b: bool)
    ensures
        b,
{
    true
}

/// The default path prefixes of a policy: the whole site, `/`.
pub fn default_path_prefixes() -> (prefixes: Vec<String>)
    ensures
        prefixes@.len() == 1,
        prefixes@[0]@ == "/"@,
{
    let mut prefixes = Vec::new();
    prefixes.push(String::from_str("/"));
    prefixes
}

/// The default discovery modes of a policy: sitemaps, then RSS feeds.
pub fn default_discovery_modes() -> (modes: Vec<DiscoveryMode>)
    ensures
        modes@ == seq![DiscoveryMode::Sitemap, DiscoveryMode::Rss],
{
    let mut modes = Vec::new();
    modes.push(DiscoveryMode::Sitemap);
    modes.push(DiscoveryMode::Rss);
    modes
}

/// The default crawl interval, in seconds: fifteen minutes.
pub fn default_crawl_interval_seconds() -> (seconds: u32)
    ensures
        seconds == 900,
{
    900
}

/// The default crawl depth.
pub fn default_max_depth() -> (depth: u8)
    ensures
        depth == 3,
{
    3
}

/// The default page budget of one crawl run.
pub fn default_max_pages_per_run() -> (pages: u32)
    ensures
        pages == 1_000,
{
    1_000
}

} // verus!
