//! What a stream makes of its request before it goes upstream, and what it
//! tells the peer when it cannot be served.

use crate::protocol::{header_views, ResponseMeta};
use crate::sanitize;
use crate::state::{wrapped, ProxyMetrics};
use crate::target_filter::FilterError;
use crate::text;
use vstd::prelude::*;

verus! {

/// What a URL says of where to connect.
#[derive(Debug, Clone)]
pub struct UrlParts {
    pub host: Option<String>,
    pub port: Option<u16>,
}

/// The message with which the URL parser refuses `url`; `None` where it
/// accepts it.
pub uninterp spec fn url_parse_error(url: Seq<char>) -> Option<Seq<char>>;

/// The host of `url` as the URL parser gives it.
pub uninterp spec fn url_host(url: Seq<char>) -> Option<Seq<char>>;

/// The port of `url`, or the well-known port of its scheme, as the URL
/// parser gives it.
pub uninterp spec fn url_port(url: Seq<char>) -> Option<u16>;

/// `url::Url::parse`, then `Url::host_str` and `Url::port_or_known_default`
/// of the parsed URL. Believed: all three depend on the text alone.
#[verifier::external_body]
fn split_url(url: &str) -> (r: Result<UrlParts, String>)
    ensures
        match r {
            Ok(parts) => {
                &&& url_parse_error(url@) is None
                &&& url_port(url@) == parts.port
                &&& match parts.host {
                    Some(h) => url_host(url@) == Some(h@),
                    None => url_host(url@) is None,
                }
            },
            Err(e) => url_parse_error(url@) == Some(e@),
        },
{
    match url::Url::parse(url) {
        Ok(u) => Ok(UrlParts { host: u.host_str().map(str::to_owned), port: u.port_or_known_default() }),
        Err(e) => Err(e.to_string()),
    }
}

/// The port of a URL that names none and whose scheme has no well-known
/// one.
pub const FALLBACK_PORT: u16 = 443;

/// The host and port that a request goes to.
#[derive(Debug, Clone)]
pub struct Target {
    pub host: String,
    pub port: u16,
}

/// Where the parts of a URL lead, or the message for the peer: a URL that
/// does not parse is invalid, one without a host is refused, a missing port
/// is 443.
pub fn target_of(parts: Result<UrlParts, String>) -> (r: Result<Target, String>)
    ensures
        match parts {
            Err(e) => r is Err && r->Err_0@ == "invalid URL: "@ + e@,
            Ok(p) => match p.host {
                None => r is Err && r->Err_0@ == "missing host in URL"@,
                Some(h) => {
                    &&& r is Ok
                    &&& r->Ok_0.host == h
                    &&& r->Ok_0.port == (match p.port {
                        Some(port) => port,
                        None => FALLBACK_PORT,
                    })
                },
            },
        },
{
    match parts {
        Err(e) => Err(text::concat("invalid URL: ", e.as_str())),
        Ok(p) => match p.host {
            None => Err(String::from_str("missing host in URL")),
            Some(host) => Ok(
                Target {
                    host,
                    port: match p.port {
                        Some(port) => port,
                        None => FALLBACK_PORT,
                    },
                },
            ),
        },
    }
}

/// The host and port that the request for `url` goes to.
pub fn request_target(url: &str) -> (r: Result<Target, String>)
    ensures
        match url_parse_error(url@) {
            Some(e) => r is Err && r->Err_0@ == "invalid URL: "@ + e,
            None => match url_host(url@) {
                None => r is Err && r->Err_0@ == "missing host in URL"@,
                Some(h) => {
                    &&& r is Ok
                    &&& r->Ok_0.host@ == h
                    &&& r->Ok_0.port == (match url_port(url@) {
                        Some(port) => port,
                        None => FALLBACK_PORT,
                    })
                },
            },
        },
{
    target_of(split_url(url))
}

/// The message for a target that the policy refused.
pub fn target_blocked_message(e: &FilterError) -> (s: String)
    ensures
        s@ == "target blocked: "@ + e.text(),
{
    let detail = e.message();
    text::concat("target blocked: ", detail.as_str())
}

/// How an upstream request failed.
#[derive(Debug, Clone, Copy, PartialEq, Eq, Structural)]
pub enum UpstreamFailure {
    Timeout,
    Connect,
    Other,
}

/// The message for a failed upstream request, by category. The detail is
/// stripped of URLs.
pub open spec fn upstream_failure_text(kind: UpstreamFailure, detail: Seq<char>) -> Seq<char> {
    match kind {
        UpstreamFailure::Timeout => "upstream timeout"@,
        UpstreamFailure::Connect => "upstream connect error: "@ + sanitize::sanitized(detail),
        UpstreamFailure::Other => "upstream error: "@ + sanitize::sanitized(detail),
    }
}

pub fn upstream_failure_message(kind: UpstreamFailure, detail: &str) -> (s: String)
    ensures
        s@ == upstream_failure_text(kind, detail@),
{
    match kind {
        UpstreamFailure::Timeout => String::from_str("upstream timeout"),
        UpstreamFailure::Connect => {
            let safe = sanitize::sanitize_upstream_error(detail);
            text::concat("upstream connect error: ", safe.as_str())
        },
        UpstreamFailure::Other => {
            let safe = sanitize::sanitize_upstream_error(detail);
            text::concat("upstream error: ", safe.as_str())
        },
    }
}

/// The message for an upstream body that broke off. The detail is stripped
/// of URLs.
pub fn body_read_failure_message(detail: &str) -> (s: String)
    ensures
        s@ == "body read error: "@ + sanitize::sanitized(detail@),
{
    let safe = sanitize::sanitize_upstream_error(detail);
    text::concat("body read error: ", safe.as_str())
}

/// Whether a header of this name is left to the HTTP client: `host`, in any
/// case.
pub open spec fn is_host_header(name: Seq<char>) -> bool {
    text::lower(name) == "host"@
}

/// The headers but those named `host`, in order.
pub open spec fn without_host(headers: Seq<(Seq<char>, Seq<char>)>) -> Seq<(Seq<char>, Seq<char>)>
    decreases headers.len(),
{
    if headers.len() == 0 {
        headers
    } else {
        let rest = without_host(headers.drop_last());
        if is_host_header(headers.last().0) {
            rest
        } else {
            rest.push(headers.last())
        }
    }
}

/// The request headers that go upstream: all but `host`, which the HTTP
/// client sets from the URL.
pub fn forwardable_headers(headers: &Vec<(String, String)>) -> (out: Vec<(String, String)>)
    ensures
        header_views(out@) == without_host(header_views(headers@)),
{
    let mut out: Vec<(String, String)> = Vec::new();
    let host = String::from_str("host");
    let mut i: usize = 0;
    assert(header_views(out@) =~= without_host(header_views(headers@).take(0)));
    while i < headers.len()
        invariant
            i <= headers@.len(),
            host@ == "host"@,
            header_views(out@) == without_host(header_views(headers@).take(i as int)),
        decreases headers@.len() - i,
    {
        let ghost all = header_views(headers@);
        assert(all.take(i + 1).drop_last() =~= all.take(i as int));
        assert(all.take(i + 1).last() == (headers@[i as int].0@, headers@[i as int].1@));
        let lowered = text::to_ascii_lowercase(headers[i].0.as_str());
        if !(lowered == host) {
            let ghost before = header_views(out@);
            out.push((headers[i].0.clone(), headers[i].1.clone()));
            assert(header_views(out@) =~= before.push((headers@[i as int].0@, headers@[i as int].1@)));
        }
        i += 1;
    }
    assert(header_views(headers@).take(i as int) =~= header_views(headers@));
    out
}

/// What the agent measured while it served a request.
#[derive(Debug, Clone, Copy, PartialEq, Eq, Structural)]
pub struct Timing {
    /// Milliseconds spent on validating and resolving the target.
    pub dns_ms: u64,
    /// Milliseconds until the upstream's response headers arrived.
    pub ttfb_ms: u64,
    /// Bytes of request body sent upstream.
    pub body_size: u64,
}

/// The name of the header that carries the timing.
pub open spec fn timing_header_name() -> Seq<char> {
    "x-proxy-timing"@
}

/// The timing as a JSON object, keys in alphabetical order.
pub open spec fn timing_json(t: Timing) -> Seq<char> {
    "{\"body_size\":"@ + text::decimal(t.body_size as nat) + ",\"dns_ms\":"@ + text::decimal(
        t.dns_ms as nat,
    ) + ",\"mode\":\"tunnel\",\"ttfb_ms\":"@ + text::decimal(t.ttfb_ms as nat)
        + ",\"upstream_ms\":"@ + text::decimal(t.ttfb_ms as nat) + "}"@
}

pub fn timing_header_value(t: &Timing) -> (s: String)
    ensures
        s@ == timing_json(*t),
{
    let mut s = String::from_str("{\"body_size\":");
    text::push_numeral(&mut s, t.body_size, 10);
    s.append(",\"dns_ms\":");
    text::push_numeral(&mut s, t.dns_ms, 10);
    s.append(",\"mode\":\"tunnel\",\"ttfb_ms\":");
    text::push_numeral(&mut s, t.ttfb_ms, 10);
    s.append(",\"upstream_ms\":");
    text::push_numeral(&mut s, t.ttfb_ms, 10);
    s.append("}");
    s
}

/// The response metadata for the peer: the upstream's status and headers,
/// and the timing header behind them.
pub fn response_meta(status: u16, headers: Vec<(String, String)>, timing: &Timing) -> (m:
    ResponseMeta)
    ensures
        m.status == status,
        header_views(m.headers@) == header_views(headers@).push(
            (timing_header_name(), timing_json(*timing)),
        ),
{
    let mut headers = headers;
    let ghost before = header_views(headers@);
    headers.push((String::from_str("x-proxy-timing"), timing_header_value(timing)));
    assert(header_views(headers@) =~= before.push((timing_header_name(), timing_json(*timing))));
    ResponseMeta { status, headers }
}


/// Whether a refusal is one of resolution: the name did not resolve, or to
/// private addresses only.
pub open spec fn is_dns_failure(e: FilterError) -> bool {
    e is DnsResolutionFailed || e is NoPublicAddrs
}

/// Counts a stream that failed before it had a target: as a stream error,
/// and as a DNS failure too if resolution was what failed.
pub fn count_target_failure(metrics: &mut ProxyMetrics, e: &FilterError)
    ensures
        *final(metrics) == (ProxyMetrics {
            stream_errors: wrapped(old(metrics).stream_errors, 1),
            dns_failures: if is_dns_failure(*e) {
                wrapped(old(metrics).dns_failures, 1)
            } else {
                old(metrics).dns_failures
            },
            ..*old(metrics)
        }),
{
    match e {
        FilterError::DnsResolutionFailed(_) => metrics.record_dns_failure(),
        FilterError::NoPublicAddrs(_) => metrics.record_dns_failure(),
        _ => {},
    }
    metrics.record_stream_error();
}

/// Counts a stream whose request could not be made sense of: as a stream
/// error.
pub fn count_bad_request(metrics: &mut ProxyMetrics)
    ensures
        *final(metrics) == (ProxyMetrics {
            stream_errors: wrapped(old(metrics).stream_errors, 1),
            ..*old(metrics)
        }),
{
    metrics.record_stream_error();
}

/// Counts a stream whose upstream exchange failed (connect failure,
/// timeout, body that broke off): as a failed request.
pub fn count_upstream_failure(metrics: &mut ProxyMetrics)
    ensures
        *final(metrics) == (ProxyMetrics {
            failed_requests: wrapped(old(metrics).failed_requests, 1),
            ..*old(metrics)
        }),
{
    metrics.record_failure();
}

} // verus!
