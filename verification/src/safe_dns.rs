//! The resolver of the upstream HTTP client: it serves the addresses that
//! validation put into the cache, so that the client connects to what was
//! validated and to nothing that a second resolution might give.

use crate::target_filter;
use crate::target_filter::{all_public, find_host, public_addrs, DnsCache, IpAddr, SocketAddr};
use crate::text;
use vstd::prelude::*;

verus! {

/// What the resolver does for a host.
#[derive(Debug, Clone)]
pub enum Resolution {
    /// Connect to these addresses: the cache holds them for the host.
    Cached(Vec<SocketAddr>),
    /// The cache holds nothing for the host: resolve it and hand the
    /// outcome to `filter_resolved`.
    Lookup,
}

/// Looks the host up in the cache. The client knows no port, so the lookup
/// is by host alone.
pub fn resolve_cached(dns_cache: &DnsCache, host: &str, now: u64) -> (r: Resolution)
    requires
        dns_cache.wf(),
    ensures
        ({
            let i = find_host(dns_cache.entries(), text::lower(host@), now);
            if dns_cache.enabled() && i < dns_cache.entries().len() {
                r matches Resolution::Cached(addrs) && addrs@ == dns_cache.entries()[i].addrs@
            } else {
                r is Lookup
            }
        }),
        r matches Resolution::Cached(addrs) ==> addrs@.len() > 0 && forall|k: int|
            0 <= k < addrs@.len() ==> !(#[trigger] addrs@[k]).ip.is_private(),
{
    match dns_cache.get_by_host(host, now) {
        Some(addrs) => Resolution::Cached(addrs),
        None => Resolution::Lookup,
    }
}

/// The addresses to connect to after a fresh resolution of `host`: those
/// that are not private, on port 0 (the client puts in the port). They are
/// not cached, since the port is not known. If none is left the host
/// cannot be connected to; the error names it.
pub fn filter_resolved(host: &str, resolved: &Vec<IpAddr>) -> (r: Result<Vec<SocketAddr>, String>)
    ensures
        match r {
            Ok(addrs) => addrs@ == public_addrs(resolved@, 0) && addrs@.len() > 0 && all_public(
                addrs@,
                0,
            ),
            Err(msg) => public_addrs(resolved@, 0).len() == 0 && msg@
                == "all resolved addresses for "@ + host@ + " are private/reserved"@,
        },
{
    let addrs = target_filter::filter_public(resolved, 0);
    if addrs.len() == 0 {
        let mut msg = text::concat("all resolved addresses for ", host);
        msg.append(" are private/reserved");
        Err(msg)
    } else {
        Ok(addrs)
    }
}

} // verus!
