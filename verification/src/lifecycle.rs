//! Application lifecycle: what the agent decides between start and
//! shutdown, around the tunnels.

use crate::config::{Config, ConfigFile, ServerEntry, ServerEntryView};
use crate::text;
use vstd::prelude::*;

verus! {

/// Seconds between two tries to register with a controller that could not
/// be reached at start.
pub const REGISTRATION_RETRY_INTERVAL_SECS: u64 = 300;

/// Tries after which registration is given up.
pub const REGISTRATION_RETRY_MAX: u32 = 12;

/// The address that stands for a public IP that could not be detected.
pub fn unknown_public_ip() -> (ip: String)
    ensures
        ip@ == "0.0.0.0"@,
{
    String::from_str("0.0.0.0")
}

/// The stream cap that is derived from the hardware where none is
/// configured: a tenth of the estimated concurrency, at least 64 and at
/// most 1024.
pub open spec fn derived_max_streams(estimated_max_concurrency: u64) -> u32 {
    if estimated_max_concurrency / 10 < 64 {
        64
    } else if estimated_max_concurrency / 10 > 1024 {
        1024
    } else {
        (estimated_max_concurrency / 10) as u32
    }
}

pub fn auto_max_streams(estimated_max_concurrency: u64) -> (cap: u32)
    ensures
        cap == derived_max_streams(estimated_max_concurrency),
        64 <= cap <= 1024,
{
    let tenth = estimated_max_concurrency / 10;
    if tenth < 64 {
        64
    } else if tenth > 1024 {
        1024
    } else {
        tenth as u32
    }
}

/// The stream cap of the tunnels: the configured one, else the derived one.
pub fn effective_max_streams(configured: Option<u32>, estimated_max_concurrency: u64) -> (cap: u32)
    ensures
        cap == (match configured {
            Some(c) => c,
            None => derived_max_streams(estimated_max_concurrency),
        }),
{
    match configured {
        Some(c) => c,
        None => auto_max_streams(estimated_max_concurrency),
    }
}

/// The number of tunnels per controller: the configured one, at least 1.
pub fn pool_size(tunnel_connections: u32) -> (n: u32)
    ensures
        n == (if tunnel_connections < 1 {
            1
        } else {
            tunnel_connections
        }),
{
    if tunnel_connections < 1 {
        1
    } else {
        tunnel_connections
    }
}

/// The time to live of the DNS cache in milliseconds.
pub fn dns_cache_ttl_ms(ttl_secs: u64) -> (ms: u64)
    ensures
        ms == (if ttl_secs * 1000 > u64::MAX {
            u64::MAX
        } else {
            (ttl_secs * 1000) as u64
        }),
{
    if ttl_secs > u64::MAX / 1000 {
        u64::MAX
    } else {
        ttl_secs * 1000
    }
}

/// The label of the `index`-th of `count` controllers in the log: `server`
/// for the only one, else `server-` and the index.
pub fn server_label(index: usize, count: usize) -> (label: String)
    ensures
        label@ == (if count == 1 {
            "server"@
        } else {
            "server-"@ + text::decimal(index as nat)
        }),
{
    if count == 1 {
        String::from_str("server")
    } else {
        let mut label = String::from_str("server-");
        text::push_numeral(&mut label, index as u64, 10);
        label
    }
}

/// The node name under which the agent registers with a controller: the
/// entry's own, else the global one.
pub fn node_name_for(entry: &ServerEntry, config: &Config) -> (name: String)
    ensures
        name@ == (match entry.node_name {
            Some(n) => n@,
            None => config.node_name@,
        }),
{
    match &entry.node_name {
        Some(n) => n.clone(),
        None => config.node_name.clone(),
    }
}

/// The controllers to connect to: those of the configuration file where it
/// names any, else the one of the command line or environment.
pub open spec fn spec_server_list(file: Option<ConfigFile>, config: Config) -> Seq<ServerEntryView> {
    if file is Some && file->Some_0.spec_effective_servers().len() > 0 {
        file->Some_0.spec_effective_servers()
    } else {
        seq![
            ServerEntryView {
                aether_url: config.aether_url@,
                management_token: config.management_token@,
                node_name: None,
            },
        ]
    }
}

pub fn server_list(file: Option<&ConfigFile>, config: &Config) -> (r: Vec<ServerEntry>)
    ensures
        r@.len() == spec_server_list(
            match file {
                Some(f) => Some(*f),
                None => None,
            },
            *config,
        ).len(),
        forall|i: int|
            0 <= i < r@.len() ==> (#[trigger] r@[i])@ == spec_server_list(
                match file {
                    Some(f) => Some(*f),
                    None => None,
                },
                *config,
            )[i],
        r@.len() > 0,
{
    if let Some(f) = file {
        let servers = f.effective_servers();
        if servers.len() > 0 {
            return servers;
        }
    }
    let mut r: Vec<ServerEntry> = Vec::new();
    r.push(
        ServerEntry {
            aether_url: config.aether_url.clone(),
            management_token: config.management_token.clone(),
            node_name: None,
        },
    );
    r
}

/// Whether the agent starts, given how many controllers it registered with
/// and how many registrations failed: it needs one registered controller;
/// the failed ones are retried in the background.
pub fn startup_check(registered: usize, failed: usize) -> (r: Result<(), String>)
    ensures
        registered > 0 ==> r is Ok,
        registered == 0 && failed == 0 ==> r is Err && r->Err_0@ == "no servers configured"@,
        registered == 0 && failed > 0 ==> r is Err && r->Err_0@
            == "no servers registered successfully (all "@ + text::decimal(failed as nat)
            + " failed)"@,
{
    if registered > 0 {
        Ok(())
    } else if failed == 0 {
        Err(String::from_str("no servers configured"))
    } else {
        let mut msg = String::from_str("no servers registered successfully (all ");
        text::push_numeral(&mut msg, failed as u64, 10);
        msg.append(" failed)");
        Err(msg)
    }
}

/// What the background registration does after a try.
#[derive(Debug, Clone, Copy, PartialEq, Eq, Structural)]
pub enum RetryStep {
    /// The controller accepted: build its context and start its tunnels.
    Registered,
    /// Wait for the retry interval, then try again.
    Again,
    /// The last try failed: give the controller up.
    GiveUp,
}

/// The step after try number `attempt` (from 1) of a registration.
pub fn registration_retry(attempt: u32, succeeded: bool) -> (step: RetryStep)
    ensures
        step == (if succeeded {
            RetryStep::Registered
        } else if attempt >= REGISTRATION_RETRY_MAX {
            RetryStep::GiveUp
        } else {
            RetryStep::Again
        }),
{
    if succeeded {
        RetryStep::Registered
    } else if attempt >= REGISTRATION_RETRY_MAX {
        RetryStep::GiveUp
    } else {
        RetryStep::Again
    }
}

} // verus!
