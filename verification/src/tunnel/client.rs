//! A tunnel session: where it connects, what it says in the handshake, and
//! how it ends.

use crate::sanitize::{http_chars, http_scheme, https_chars, https_scheme};
use crate::text;
use crate::text::has_at;
use vstd::prelude::*;

verus! {

/// Outcome of a tunnel session.
#[derive(Debug, Clone, Copy, PartialEq, Eq, Structural)]
pub enum TunnelOutcome {
    /// Graceful shutdown requested by the local process.
    Shutdown,
    /// Remote side disconnected or connection lost: reconnect.
    Disconnected,
}

/// How a session came to its end.
#[derive(Debug, Clone)]
pub enum Termination {
    /// The dispatcher left its loop: close, go-away, end of stream, silence.
    DispatcherEnded,
    /// The dispatcher could not read; the error's text, for the log.
    DispatcherFailed(String),
    /// The writer ended first: the peer closed the write half.
    WriterExited,
    /// Shutdown was signalled.
    ShutdownSignal,
}

/// The outcome of a session that was established, by the way it ended: a
/// shutdown signal ends it as shut down; anything else, a read error too,
/// ends it as disconnected, so that the connection is tried again. Only a
/// session that could not be established ends in an error.
pub fn session_outcome(end: Termination) -> (r: Result<TunnelOutcome, String>)
    ensures
        r is Ok,
        match end {
            Termination::DispatcherEnded => r == Ok::<TunnelOutcome, String>(
                TunnelOutcome::Disconnected,
            ),
            Termination::DispatcherFailed(_) => r == Ok::<TunnelOutcome, String>(
                TunnelOutcome::Disconnected,
            ),
            Termination::WriterExited => r == Ok::<TunnelOutcome, String>(
                TunnelOutcome::Disconnected,
            ),
            Termination::ShutdownSignal => r == Ok::<TunnelOutcome, String>(TunnelOutcome::Shutdown),
        },
{
    match end {
        Termination::DispatcherEnded => Ok(TunnelOutcome::Disconnected),
        Termination::DispatcherFailed(_) => Ok(TunnelOutcome::Disconnected),
        Termination::WriterExited => Ok(TunnelOutcome::Disconnected),
        Termination::ShutdownSignal => Ok(TunnelOutcome::Shutdown),
    }
}

/// `s` without the slashes at its end.
pub open spec fn without_trailing_slashes(s: Seq<char>) -> Seq<char>
    decreases s.len(),
{
    if s.len() > 0 && s.last() == '/' {
        without_trailing_slashes(s.drop_last())
    } else {
        s
    }
}

/// The WebSocket form of a controller URL: `https://` becomes `wss://`,
/// `http://` becomes `ws://`, and a URL without either gets `wss://` in
/// front.
pub open spec fn ws_base(base: Seq<char>) -> Seq<char> {
    if has_at(base, 0, https_scheme()) {
        "wss://"@ + base.skip(8)
    } else if has_at(base, 0, http_scheme()) {
        "ws://"@ + base.skip(7)
    } else {
        "wss://"@ + base
    }
}

/// The URL of the tunnel endpoint of the controller at `aether_url`.
pub open spec fn tunnel_url(aether_url: Seq<char>) -> Seq<char> {
    ws_base(without_trailing_slashes(aether_url)) + "/api/internal/proxy-tunnel"@
}

pub fn build_tunnel_url(aether_url: &str) -> (url: String)
    ensures
        url@ == tunnel_url(aether_url@),
{
    let v = text::chars_of(aether_url);
    let mut n: usize = v.len();
    assert(v@.take(n as int) =~= v@);
    while n > 0 && v[n - 1] == '/'
        invariant
            n <= v@.len(),
            without_trailing_slashes(v@) == without_trailing_slashes(v@.take(n as int)),
        decreases n,
    {
        assert(v@.take(n as int).drop_last() =~= v@.take(n - 1));
        n -= 1;
    }
    let ghost base = v@.take(n as int);
    assert(without_trailing_slashes(base) == base);
    let https = https_chars();
    let http = http_chars();
    let mut url;
    let from: usize;
    if n >= 8 && text::match_at(&v, 0, &https) {
        assert(base.subrange(0, 8) =~= v@.subrange(0, 8));
        url = String::from_str("wss://");
        from = 8;
    } else if n >= 7 && text::match_at(&v, 0, &http) {
        assert(n >= 8 ==> base.subrange(0, 8) =~= v@.subrange(0, 8));
        assert(base.subrange(0, 7) =~= v@.subrange(0, 7));
        url = String::from_str("ws://");
        from = 7;
    } else {
        assert(n >= 8 ==> base.subrange(0, 8) =~= v@.subrange(0, 8));
        assert(n >= 7 ==> base.subrange(0, 7) =~= v@.subrange(0, 7));
        url = String::from_str("wss://");
        from = 0;
    }
    let rest = text::string_of(&v, from, n);
    assert(v@.subrange(from as int, n as int) =~= base.skip(from as int));
    assert(base.skip(0) =~= base);
    url.append(rest.as_str());
    url.append("/api/internal/proxy-tunnel");
    url
}

/// The port of the tunnel endpoint: the URL's, else 443 with TLS and 80
/// without.
pub fn tunnel_port(is_tls: bool, explicit: Option<u16>) -> (port: u16)
    ensures
        port == (match explicit {
            Some(p) => p,
            None => if is_tls {
                443u16
            } else {
                80u16
            },
        }),
{
    match explicit {
        Some(p) => p,
        None => if is_tls {
            443
        } else {
            80
        },
    }
}

/// The stream cap of a tunnel: the configured one, else 128.
pub fn stream_cap(configured: Option<u32>) -> (cap: u32)
    ensures
        cap == (match configured {
            Some(c) => c,
            None => 128u32,
        }),
{
    match configured {
        Some(c) => c,
        None => 128,
    }
}

/// What the headers of the upgrade request say.
pub open spec fn handshake(
    token: Seq<char>,
    node_id: Seq<char>,
    node_name: Seq<char>,
    max_streams: u32,
) -> Seq<(Seq<char>, Seq<char>)> {
    seq![
        ("Authorization"@, "Bearer "@ + token),
        ("X-Node-Id"@, node_id),
        ("X-Node-Name"@, node_name),
        ("X-Tunnel-Max-Streams"@, text::decimal(max_streams as nat)),
    ]
}

/// The headers that the upgrade request carries besides the transport's
/// own: the bearer token, the node's id and current name, and the stream
/// cap.
pub fn handshake_headers(token: &str, node_id: &str, node_name: &str, max_streams: u32) -> (h: Vec<
    (String, String),
>)
    ensures
        crate::protocol::header_views(h@) == handshake(token@, node_id@, node_name@, max_streams),
{
    let mut h: Vec<(String, String)> = Vec::new();
    h.push((String::from_str("Authorization"), text::concat("Bearer ", token)));
    h.push((String::from_str("X-Node-Id"), String::from_str(node_id)));
    h.push((String::from_str("X-Node-Name"), String::from_str(node_name)));
    h.push((String::from_str("X-Tunnel-Max-Streams"), text::u64_to_string(max_streams as u64)));
    assert(crate::protocol::header_views(h@) =~= handshake(
        token@,
        node_id@,
        node_name@,
        max_streams,
    ));
    h
}

/// TCP keepalive settings of a tunnel socket.
#[derive(Debug, Clone, Copy, PartialEq, Eq, Structural)]
pub struct Keepalive {
    /// Idle seconds before the first probe.
    pub time_secs: u64,
    /// Seconds between probes.
    pub interval_secs: u64,
    /// Probes without answer before the connection counts as lost, where
    /// the platform lets it be set.
    pub retries: u32,
}

/// The keepalive of a tunnel socket: none for 0 seconds, else probes every
/// 5 seconds, 3 of them.
pub fn keepalive_plan(keepalive_secs: u64) -> (k: Option<Keepalive>)
    ensures
        k == (if keepalive_secs > 0 {
            Some(Keepalive { time_secs: keepalive_secs, interval_secs: 5, retries: 3 })
        } else {
            None
        }),
{
    if keepalive_secs > 0 {
        Some(Keepalive { time_secs: keepalive_secs, interval_secs: 5, retries: 3 })
    } else {
        None
    }
}

} // verus!
