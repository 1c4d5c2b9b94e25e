//! Counters that a controller's tunnels share.

use vstd::prelude::*;

verus! {

/// Aggregate metrics for one heartbeat interval.
#[derive(Debug, Clone, Copy, PartialEq, Eq, Structural)]
pub struct ProxyMetrics {
    pub total_requests: u64,
    pub total_latency_ns: u64,
    pub failed_requests: u64,
    pub dns_failures: u64,
    pub stream_errors: u64,
}

/// `a + b` as a 64-bit counter holds it: modulo 2^64.
pub open spec fn wrapped(a: u64, b: u64) -> u64 {
    if a + b > u64::MAX {
        (a + b - 0x1_0000_0000_0000_0000) as u64
    } else {
        (a + b) as u64
    }
}

/// A duration in nanoseconds as a counter takes it: at most `u64::MAX`.
pub open spec fn clamped(nanos: u128) -> u64 {
    if nanos > u64::MAX {
        u64::MAX
    } else {
        nanos as u64
    }
}

fn wrapping_sum(a: u64, b: u64) -> (r: u64)
    ensures
        r == wrapped(a, b),
{
    if b > u64::MAX - a {
        b - (u64::MAX - a) - 1
    } else {
        a + b
    }
}

impl ProxyMetrics {
    pub fn new() -> (m: ProxyMetrics)
        ensures
            m == (ProxyMetrics {
                total_requests: 0,
                total_latency_ns: 0,
                failed_requests: 0,
                dns_failures: 0,
                stream_errors: 0,
            }),
    {
        ProxyMetrics {
            total_requests: 0,
            total_latency_ns: 0,
            failed_requests: 0,
            dns_failures: 0,
            stream_errors: 0,
        }
    }

    /// Counts one request that took `elapsed_nanos`.
    pub fn record_request(&mut self, elapsed_nanos: u128)
        ensures
            *final(self) == (ProxyMetrics {
                total_requests: wrapped(old(self).total_requests, 1),
                total_latency_ns: wrapped(old(self).total_latency_ns, clamped(elapsed_nanos)),
                ..*old(self)
            }),
    {
        let nanos: u64 = if elapsed_nanos > u64::MAX as u128 {
            u64::MAX
        } else {
            elapsed_nanos as u64
        };
        self.total_requests = wrapping_sum(self.total_requests, 1);
        self.total_latency_ns = wrapping_sum(self.total_latency_ns, nanos);
    }

    /// Counts one upstream failure.
    pub fn record_failure(&mut self)
        ensures
            *final(self) == (ProxyMetrics {
                failed_requests: wrapped(old(self).failed_requests, 1),
                ..*old(self)
            }),
    {
        self.failed_requests = wrapping_sum(self.failed_requests, 1);
    }

    /// Counts one target that could not be resolved.
    pub fn record_dns_failure(&mut self)
        ensures
            *final(self) == (ProxyMetrics {
                dns_failures: wrapped(old(self).dns_failures, 1),
                ..*old(self)
            }),
    {
        self.dns_failures = wrapping_sum(self.dns_failures, 1);
    }

    /// Counts one stream that ended in an error.
    pub fn record_stream_error(&mut self)
        ensures
            *final(self) == (ProxyMetrics {
                stream_errors: wrapped(old(self).stream_errors, 1),
                ..*old(self)
            }),
    {
        self.stream_errors = wrapping_sum(self.stream_errors, 1);
    }

    /// Hands out the counters and sets them back to zero.
    pub fn take(&mut self) -> (m: ProxyMetrics)
        ensures
            m == *old(self),
            *final(self) == (ProxyMetrics {
                total_requests: 0,
                total_latency_ns: 0,
                failed_requests: 0,
                dns_failures: 0,
                stream_errors: 0,
            }),
    {
        let m = *self;
        *self = ProxyMetrics::new();
        m
    }
}

} // verus!
