//! Tunnel heartbeat: the metrics that go to the controller, and what its
//! acknowledgements change.

use crate::registration::RemoteConfig;
use crate::runtime;
use crate::runtime::DynamicConfig;
use crate::state::ProxyMetrics;
use vstd::prelude::*;

verus! {

/// Acknowledgements that the channel to the heartbeat task holds.
pub const ACK_CHANNEL_CAPACITY: usize = 4;

/// Whether the connection with this index in its pool sends heartbeats:
/// only the first does, so that the shared counters are reset once per
/// interval.
pub fn emits_heartbeat(conn_idx: usize) -> (r: bool)
    ensures
        r == (conn_idx == 0),
{
    conn_idx == 0
}

/// The metrics of one heartbeat interval.
#[derive(Debug, Clone)]
pub struct HeartbeatReport {
    pub node_id: String,
    pub active_connections: u64,
    pub total_requests: u64,
    /// The summed latency of the interval's requests in nanoseconds, present
    /// if there were any: the average latency is this over the requests.
    pub total_latency_ns: Option<u64>,
    pub failed_requests: u64,
    pub dns_failures: u64,
    pub stream_errors: u64,
}

/// Builds the report of the interval that ends now and sets the counters
/// back to zero.
pub fn build_heartbeat_report(node_id: &str, active_connections: u64, metrics: &mut ProxyMetrics)
    -> (r: HeartbeatReport)
    ensures
        r.node_id@ == node_id@,
        r.active_connections == active_connections,
        r.total_requests == old(metrics).total_requests,
        r.total_latency_ns == (if old(metrics).total_requests > 0 {
            Some(old(metrics).total_latency_ns)
        } else {
            None
        }),
        r.failed_requests == old(metrics).failed_requests,
        r.dns_failures == old(metrics).dns_failures,
        r.stream_errors == old(metrics).stream_errors,
        *final(metrics) == (ProxyMetrics {
            total_requests: 0,
            total_latency_ns: 0,
            failed_requests: 0,
            dns_failures: 0,
            stream_errors: 0,
        }),
{
    let taken = metrics.take();
    HeartbeatReport {
        node_id: String::from_str(node_id),
        active_connections,
        total_requests: taken.total_requests,
        total_latency_ns: if taken.total_requests > 0 {
            Some(taken.total_latency_ns)
        } else {
            None
        },
        failed_requests: taken.failed_requests,
        dns_failures: taken.dns_failures,
        stream_errors: taken.stream_errors,
    }
}

/// The payload of a heartbeat acknowledgement.
#[derive(Debug, Clone)]
pub struct AckPayload {
    pub remote_config: Option<RemoteConfig>,
    /// 0 where the acknowledgement names no version.
    pub config_version: u64,
}

/// Applies the remote configuration of an acknowledgement, if it carries
/// one. Returns whether a value changed.
pub fn handle_ack(dynamic: &mut DynamicConfig, ack: &AckPayload) -> (changed: bool)
    requires
        old(dynamic).wf(),
    ensures
        final(dynamic).wf(),
        match ack.remote_config {
            Some(rc) => {
                &&& final(dynamic)@ == runtime::updated(old(dynamic)@, rc@, ack.config_version)
                &&& changed == runtime::changes(old(dynamic)@, rc@, ack.config_version).any()
            },
            None => *final(dynamic) == *old(dynamic) && !changed,
        },
        ack.config_version <= old(dynamic).config_version ==> *final(dynamic) == *old(dynamic)
            && !changed,
{
    match &ack.remote_config {
        Some(rc) => runtime::apply_remote_config(dynamic, rc, ack.config_version),
        None => false,
    }
}

} // verus!
