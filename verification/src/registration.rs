//! What the agent exchanges with the controller's node-lifecycle API, and
//! the retry policy of those calls.

use crate::text;
use vstd::prelude::*;

verus! {

/// Heartbeat failure that tells "node not found" (the node has to register
/// again) from any other failure.
#[derive(Debug, Clone, PartialEq, Eq)]
pub enum HeartbeatError {
    /// HTTP 404: the controller no longer knows the node id.
    NodeNotFound(String),
    /// Any other failure (network, 5xx, ...).
    Other(String),
}

impl HeartbeatError {
    pub open spec fn text(self) -> Seq<char> {
        match self {
            HeartbeatError::NodeNotFound(msg) => "node not found: "@ + msg@,
            HeartbeatError::Other(msg) => msg@,
        }
    }

    pub fn message(&self) -> (s: String)
        ensures
            s@ == self.text(),
    {
        match self {
            HeartbeatError::NodeNotFound(msg) => text::concat("node not found: ", msg.as_str()),
            HeartbeatError::Other(msg) => msg.clone(),
        }
    }
}

/// The controller's answer to a registration.
#[derive(Debug, Clone)]
pub struct RegisterResponse {
    pub node_id: String,
}

/// Remote configuration pushed by the controller.
#[derive(Debug, Clone)]
pub struct RemoteConfig {
    pub node_name: Option<String>,
    pub allowed_ports: Option<Vec<u16>>,
    pub log_level: Option<String>,
    pub heartbeat_interval: Option<u64>,
}

/// What a remote configuration says.
pub struct RemoteConfigView {
    pub node_name: Option<Seq<char>>,
    pub allowed_ports: Option<Seq<u16>>,
    pub log_level: Option<Seq<char>>,
    pub heartbeat_interval: Option<u64>,
}

impl View for RemoteConfig {
    type V = RemoteConfigView;

    open spec fn view(&self) -> RemoteConfigView {
        RemoteConfigView {
            node_name: match self.node_name {
                Some(n) => Some(n@),
                None => None,
            },
            allowed_ports: match self.allowed_ports {
                Some(p) => Some(p@),
                None => None,
            },
            log_level: match self.log_level {
                Some(l) => Some(l@),
                None => None,
            },
            heartbeat_interval: self.heartbeat_interval,
        }
    }
}

/// What a heartbeat brought back.
#[derive(Debug, Clone)]
pub struct HeartbeatResult {
    pub remote_config: Option<RemoteConfig>,
    pub config_version: u64,
}

impl HeartbeatResult {
    /// The result of a heartbeat whose answer carried `remote_config` and
    /// `config_version`; a missing version counts as 0.
    pub fn new(remote_config: Option<RemoteConfig>, config_version: Option<u64>) -> (r:
        HeartbeatResult)
        ensures
            r.remote_config == remote_config,
            r.config_version == (match config_version {
                Some(v) => v,
                None => 0,
            }),
    {
        HeartbeatResult {
            remote_config,
            config_version: match config_version {
                Some(v) => v,
                None => 0,
            },
        }
    }
}

/// Whether a request that was answered with `status` is worth another try:
/// server errors, 429 Too Many Requests and 408 Request Timeout.
pub open spec fn retriable_status(status: u16) -> bool {
    500 <= status <= 599 || status == 429 || status == 408
}

pub fn should_retry_status(status: u16) -> (r: bool)
    ensures
        r == retriable_status(status),
{
    (500 <= status && status <= 599) || status == 429 || status == 408
}

/// `base_ms` plus a jitter of less than 100 ms taken from the clock's
/// sub-second nanoseconds; no jitter on a zero delay.
pub open spec fn jittered(base_ms: u64, clock_nanos: u32) -> u64 {
    if base_ms == 0 {
        0
    } else if base_ms + clock_nanos % 100 > u64::MAX {
        u64::MAX
    } else {
        (base_ms + clock_nanos % 100) as u64
    }
}

pub fn jitter_delay(base_ms: u64, clock_nanos: u32) -> (r: u64)
    ensures
        r == jittered(base_ms, clock_nanos),
        base_ms <= r,
        r - base_ms < 100,
{
    if base_ms == 0 {
        return base_ms;
    }
    let jitter_ms = (clock_nanos % 100) as u64;
    if jitter_ms > u64::MAX - base_ms {
        u64::MAX
    } else {
        base_ms + jitter_ms
    }
}

/// How often and how patiently a call to the controller is repeated.
#[derive(Debug, Clone, Copy, PartialEq, Eq, Structural)]
pub struct RetryPolicy {
    pub max_attempts: u32,
    pub base_delay_ms: u64,
    pub max_delay_ms: u64,
}

/// Where a call stands: the attempts made and the delay before the next.
#[derive(Debug, Clone, Copy, PartialEq, Eq, Structural)]
pub struct RetryState {
    pub attempt: u32,
    pub delay_ms: u64,
}

/// What to do after an attempt.
#[derive(Debug, Clone, Copy, PartialEq, Eq, Structural)]
pub enum RetryDecision {
    /// Hand the outcome to the caller.
    Done,
    /// Sleep for so many milliseconds, then try again.
    RetryAfter(u64),
}

impl RetryPolicy {
    /// At least one attempt is made, and the largest delay is no smaller
    /// than the first.
    pub open spec fn wf(self) -> bool {
        self.max_attempts >= 1 && self.max_delay_ms >= self.base_delay_ms
    }

    pub fn new(max_attempts: u32, base_delay_ms: u64, max_delay_ms: u64) -> (p: RetryPolicy)
        ensures
            p.wf(),
            p.max_attempts == if max_attempts < 1 {
                1
            } else {
                max_attempts
            },
            p.base_delay_ms == base_delay_ms,
            p.max_delay_ms == if max_delay_ms < base_delay_ms {
                base_delay_ms
            } else {
                max_delay_ms
            },
    {
        RetryPolicy {
            max_attempts: if max_attempts < 1 {
                1
            } else {
                max_attempts
            },
            base_delay_ms,
            max_delay_ms: if max_delay_ms < base_delay_ms {
                base_delay_ms
            } else {
                max_delay_ms
            },
        }
    }

    /// The state before the first attempt.
    pub fn start(&self) -> (s: RetryState)
        ensures
            s == (RetryState { attempt: 0, delay_ms: self.base_delay_ms }),
    {
        RetryState { attempt: 0, delay_ms: self.base_delay_ms }
    }

    /// The delay that follows `delay_ms`: twice as long, capped.
    pub open spec fn next_delay(self, delay_ms: u64) -> u64 {
        if delay_ms * 2 > self.max_delay_ms {
            self.max_delay_ms
        } else {
            (delay_ms * 2) as u64
        }
    }
}

impl RetryState {
    /// The state and decision after one more attempt, which failed in a way
    /// worth retrying (`retriable`) or did not.
    pub open spec fn after(self, policy: RetryPolicy, retriable: bool, clock_nanos: u32) -> (
        RetryState,
        RetryDecision,
    ) {
        let attempt = if self.attempt == u32::MAX {
            u32::MAX
        } else {
            (self.attempt + 1) as u32
        };
        if retriable && attempt < policy.max_attempts {
            (
                RetryState { attempt, delay_ms: policy.next_delay(self.delay_ms) },
                RetryDecision::RetryAfter(jittered(self.delay_ms, clock_nanos)),
            )
        } else {
            (RetryState { attempt, delay_ms: self.delay_ms }, RetryDecision::Done)
        }
    }

    /// Counts an attempt and decides whether another follows.
    pub fn record_attempt(&mut self, policy: &RetryPolicy, retriable: bool, clock_nanos: u32) -> (d:
        RetryDecision)
        ensures
            (*final(self), d) == old(self).after(*policy, retriable, clock_nanos),
            d is Done <==> !(retriable && old(self).attempt + 1 < policy.max_attempts),
    {
        self.attempt = if self.attempt == u32::MAX {
            u32::MAX
        } else {
            self.attempt + 1
        };
        if retriable && self.attempt < policy.max_attempts {
            let sleep_for = jitter_delay(self.delay_ms, clock_nanos);
            self.delay_ms = if self.delay_ms > policy.max_delay_ms / 2 {
                policy.max_delay_ms
            } else {
                self.delay_ms * 2
            };
            RetryDecision::RetryAfter(sleep_for)
        } else {
            RetryDecision::Done
        }
    }
}

/// What a heartbeat's HTTP status means: success for 2xx, "node not found"
/// for 404, any other failure otherwise.
pub fn classify_heartbeat(status: u16, body: String) -> (r: Result<(), HeartbeatError>)
    ensures
        200 <= status <= 299 ==> r is Ok,
        status == 404 ==> r == Err::<(), HeartbeatError>(HeartbeatError::NodeNotFound(body)),
        !(200 <= status <= 299) && status != 404 ==> {
            &&& r matches Err(HeartbeatError::Other(msg))
            &&& msg@ == "heartbeat failed (HTTP "@ + text::decimal(status as nat) + "): "@ + body@
        },
{
    if 200 <= status && status <= 299 {
        Ok(())
    } else if status == 404 {
        Err(HeartbeatError::NodeNotFound(body))
    } else {
        let mut msg = String::from_str("heartbeat failed (HTTP ");
        text::push_numeral(&mut msg, status as u64, 10);
        msg.append("): ");
        msg.append(body.as_str());
        Err(HeartbeatError::Other(msg))
    }
}

} // verus!
