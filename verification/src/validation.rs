//! The validation error of the control-plane contracts and the field checks
//! they share: required text, byte limits, URL shape and exact hosts.
use vstd::prelude::*;

use crate::text::{self, chars_equal, chars_of, lowercase_range, range_contains, range_starts_with, trim_bounds, trim_end_matches_bound};

verus! {

broadcast use vstd::seq_lib::group_seq_properties;

/// A rejected request, with a readable reason.
#[derive(Debug, Clone, PartialEq, Eq)]
pub struct ValidationError(pub String);

impl ValidationError {
    /// The text `Display` shows for this error: its reason.
    pub fn to_display_string(&self) -> (s: String)
        ensures
            s@ == self.0@,
    {
        self.0.clone()
    }
}

/// The outcome of a validation: `None` when it passed, else the reason.
pub open spec fn outcome(r: Result<(), ValidationError>) -> Option<Seq<char>> {
    match r {
        Ok(_) => None,
        Err(e) => Some(e.0@),
    }
}

/// The first fault among `items` from position `i` on, as `check` finds it.
pub open spec fn first_error<T>(items: Seq<T>, check: spec_fn(T) -> Option<Seq<char>>, i: int) -> Option<Seq<char>>
    decreases items.len() - i,
{
    if i < 0 || i >= items.len() {
        None
    } else if check(items[i]) is Some {
        check(items[i])
    } else {
        first_error(items, check, i + 1)
    }
}

/// When `first_error` from `i` finds nothing, `check` passes every item from `i` on.
pub proof fn lemma_first_error_none<T>(items: Seq<T>, check: spec_fn(T) -> Option<Seq<char>>, i: int)
    requires
        0 <= i,
        first_error(items, check, i) is None,
    ensures
        forall|j: int| i <= j < items.len() ==> check(#[trigger] items[j]) is None,
    decreases items.len() - i,
{
    if i < items.len() {
        lemma_first_error_none(items, check, i + 1);
    }
}

/// When `check` passes every item from `i` on, `first_error` from `i` finds nothing.
pub proof fn lemma_first_error_all_pass<T>(items: Seq<T>, check: spec_fn(T) -> Option<Seq<char>>, i: int)
    requires
        0 <= i,
        forall|j: int| i <= j < items.len() ==> check(#[trigger] items[j]) is None,
    ensures
        first_error(items, check, i) is None,
    decreases items.len() - i,
{
    if i < items.len() {
        lemma_first_error_all_pass(items, check, i + 1);
    }
}

/// The reason for a value longer than `max_len` bytes.
pub open spec fn too_long_message(name: Seq<char>, max_len: nat) -> Seq<char> {
    name + " exceeds "@ + text::decimal(max_len) + " bytes"@
}

/// The reason for a blank value.
pub open spec fn blank_message(name: Seq<char>) -> Seq<char> {
    name + " must not be empty"@
}

/// Why `value` breaks a limit of `max_len` bytes of UTF-8, if it does.
pub open spec fn max_len_error(name: Seq<char>, value: Seq<char>, max_len: nat) -> Option<Seq<char>> {
    if text::utf8_len(value) > max_len {
        Some(too_long_message(name, max_len))
    } else {
        None
    }
}

/// Why `value` is not a non-blank text of at most `max_len` bytes, if it is not.
pub open spec fn non_empty_error(name: Seq<char>, value: Seq<char>, max_len: nat) -> Option<Seq<char>> {
    if text::trim(value).len() == 0 {
        Some(blank_message(name))
    } else {
        max_len_error(name, value, max_len)
    }
}

/// A required text passes exactly when it is non-blank and its UTF-8
/// encoding fits in `max_len` bytes; a blank one is refused as empty, and a
/// non-blank one too long as exceeding the limit.
pub proof fn lemma_required_text(name: Seq<char>, value: Seq<char>, max_len: nat)
    ensures
        non_empty_error(name, value, max_len) is None <==> (text::trim(value).len() > 0
            && text::utf8_len(value) <= max_len),
        text::trim(value).len() == 0 ==> non_empty_error(name, value, max_len) == Some(
            name + " must not be empty"@,
        ),
        text::trim(value).len() > 0 && text::utf8_len(value) > max_len ==> non_empty_error(
            name,
            value,
            max_len,
        ) == Some(name + " exceeds "@ + text::decimal(max_len) + " bytes"@),
        max_len_error(name, value, max_len) is None <==> text::utf8_len(value) <= max_len,
{
}

/// Why `value`, trimmed, is not an absolute http(s) URL without credentials,
/// if it is not.
pub open spec fn url_shape_error(name: Seq<char>, value: Seq<char>) -> Option<Seq<char>> {
    let trimmed = text::trim(value);
    if !(text::starts_with(trimmed, "https://"@) || text::starts_with(trimmed, "http://"@)) {
        Some(name + " must be an absolute http or https URL"@)
    } else if trimmed.contains('@') {
        Some(name + " must not contain URL credentials"@)
    } else {
        None
    }
}

/// The host a value names: trimmed, without trailing dots, in ASCII lower case.
pub open spec fn host_form(value: Seq<char>) -> Seq<char> {
    text::to_ascii_lowercase(text::trim_end_matches(text::trim(value), '.'))
}

/// Whether a host is written only with ASCII digits and dots, as a
/// dotted-decimal IPv4 address is.
pub open spec fn is_numeric_host(host: Seq<char>) -> bool {
    forall|i: int| 0 <= i < host.len() ==> ('0' <= #[trigger] host[i] && host[i] <= '9') || host[i] == '.'
}

/// Whether a value names an exact public DNS host: not empty, with no path,
/// port, wildcard or credentials, not `localhost`, holding a dot, and not an
/// IP literal (digits and dots only; bracketed IPv6 literals hold `:`).
pub open spec fn is_exact_public_host(value: Seq<char>) -> bool {
    let host = host_form(value);
    !(host.len() == 0 || host.contains('/') || host.contains(':') || host.contains('*')
        || host.contains('@') || host == "localhost"@ || !host.contains('.') || is_numeric_host(
        host,
    ))
}

/// An allowed host, once trimmed, stripped of trailing dots and lower-cased,
/// is a non-empty name holding a dot and at least one character that is
/// neither a digit nor a dot (so no IPv4 literal), with no `/`, `:`, `*` or
/// `@` (so no path, port, IPv6 literal, wildcard or credentials), and it is
/// not `localhost`; every such value is allowed.
pub proof fn lemma_host_acceptance(value: Seq<char>)
    ensures
        is_exact_public_host(value) <==> {
            let host = host_form(value);
            &&& host.len() > 0
            &&& host.contains('.')
            &&& exists|i: int|
                0 <= i < host.len() && !(('0' <= #[trigger] host[i] && host[i] <= '9') || host[i]
                    == '.')
            &&& !host.contains('/') && !host.contains(':') && !host.contains('*') && !host.contains('@')
            &&& host != "localhost"@
        },
        host_error(value) is None <==> is_exact_public_host(value),
{
}

/// Why a value is not an allowed host, if it is not.
pub open spec fn host_error(value: Seq<char>) -> Option<Seq<char>> {
    if is_exact_public_host(value) {
        None
    } else {
        Some("allowed host must be an exact public DNS name: "@ + value)
    }
}

/// The reason `name` followed by `suffix`.
fn named_message(name: &str, suffix: &str) -> (m: String)
    ensures
        m@ == name@ + suffix@,
{
    let mut m = String::from_str(name);
    m.append(suffix);
    m
}

/// Rejects a value longer than `max_len` bytes of UTF-8.
pub(crate) fn require_max_len(name: &str, value: &str, max_len: usize) -> (r: Result<(), ValidationError>)
    ensures
        outcome(r) == max_len_error(name@, value@, max_len as nat),
{
    if value.as_bytes().len() > max_len {
        let mut message = named_message(name, " exceeds ");
        text::push_decimal(&mut message, max_len as u64);
        message.append(" bytes");
        return Err(ValidationError(message));
    }
    Ok(())
}

/// Rejects a blank value, then one longer than `max_len` bytes of UTF-8.
pub(crate) fn require_non_empty(name: &str, value: &str, max_len: usize) -> (r: Result<(), ValidationError>)
    ensures
        outcome(r) == non_empty_error(name@, value@, max_len as nat),
{
    if text::is_blank(value) {
        return Err(ValidationError(named_message(name, " must not be empty")));
    }
    require_max_len(name, value, max_len)
}

/// Rejects a value that, trimmed, is not an absolute http or https URL or
/// that carries credentials.
pub(crate) fn require_http_url_shape(name: &str, value: &str) -> (r: Result<(), ValidationError>)
    ensures
        outcome(r) == url_shape_error(name@, value@),
{
    let chars = chars_of(value);
    let (lo, hi) = trim_bounds(&chars);
    let https = chars_of("https://");
    let http = chars_of("http://");
    if !(range_starts_with(&chars, lo, hi, &https) || range_starts_with(&chars, lo, hi, &http)) {
        return Err(ValidationError(named_message(name, " must be an absolute http or https URL")));
    }
    if range_contains(&chars, lo, hi, '@') {
        return Err(ValidationError(named_message(name, " must not contain URL credentials")));
    }
    Ok(())
}

/// Whether `v` holds `c`.
fn holds(v: &Vec<char>, c: char) -> (r: bool)
    ensures
        r == v@.contains(c),
{
    let r = range_contains(v, 0, v.len(), c);
    assert(v@.subrange(0, v@.len() as int) =~= v@);
    r
}

/// Whether `v` holds only ASCII digits and dots.
fn numeric_only(v: &Vec<char>) -> (r: bool)
    ensures
        r == is_numeric_host(v@),
{
    let mut i: usize = 0;
    while i < v.len()
        invariant
            i <= v@.len(),
            forall|j: int| 0 <= j < i ==> ('0' <= #[trigger] v@[j] && v@[j] <= '9') || v@[j] == '.',
        decreases v@.len() - i,
    {
        let c = v[i];
        if !(('0' <= c && c <= '9') || c == '.') {
            return false;
        }
        i = i + 1;
    }
    true
}

/// Rejects a value that does not name an exact public DNS host.
pub(crate) fn validate_host(value: &str) -> (r: Result<(), ValidationError>)
    ensures
        outcome(r) == host_error(value@),
{
    let chars = chars_of(value);
    let (lo, hi) = trim_bounds(&chars);
    let end = trim_end_matches_bound(&chars, lo, hi, '.');
    let host = lowercase_range(&chars, lo, end);
    let localhost = chars_of("localhost");
    if host.len() == 0 || holds(&host, '/') || holds(&host, ':') || holds(&host, '*') || holds(
        &host,
        '@',
    ) || chars_equal(&host, &localhost) || !holds(&host, '.') || numeric_only(&host) {
        return Err(
            ValidationError(named_message("allowed host must be an exact public DNS name: ", value)),
        );
    }
    Ok(())
}

} // verus!
