//! The tunnel subsystem: what each task of a tunnel connection decides, and
//! when a lost connection is tried again.

pub mod client;
pub mod dispatcher;
pub mod heartbeat;
pub mod request;
pub mod stream_handler;
pub mod writer;

use crate::tunnel::client::TunnelOutcome;
use vstd::prelude::*;

verus! {

/// Milliseconds that a session has to last to count as stable. A shorter
/// one does not reset the backoff, so that a connection that keeps breaking
/// is retried ever more slowly.
pub const MIN_STABLE_MS: u64 = 30_000;

/// The largest exponent of the backoff.
pub const MAX_BACKOFF_EXPONENT: u32 = 10;

/// 2 to the power of `k`.
pub open spec fn two_to(k: nat) -> nat
    decreases k,
{
    if k == 0 {
        1
    } else {
        2 * two_to((k - 1) as nat)
    }
}

/// The delay before reconnect attempt `attempt`, without jitter:
/// `min(base_ms * 2^min(attempt, 10), max_ms)`.
pub open spec fn backoff(base_ms: u64, max_ms: u64, attempt: u32) -> u64 {
    let k = if attempt < MAX_BACKOFF_EXPONENT {
        attempt
    } else {
        MAX_BACKOFF_EXPONENT
    };
    if base_ms * two_to(k as nat) < max_ms {
        (base_ms * two_to(k as nat)) as u64
    } else {
        max_ms
    }
}

/// The jitter on `delay_ms` that `random` picks: less than a quarter of the
/// delay.
pub open spec fn jitter(delay_ms: u64, random: u64) -> u64 {
    if delay_ms / 4 == 0 {
        0
    } else {
        random % (delay_ms / 4)
    }
}

/// `delay_ms` with its jitter, or the largest number there is where the sum
/// would lie behind it.
pub open spec fn delay_with_jitter(delay_ms: u64, random: u64) -> u64 {
    if delay_ms + jitter(delay_ms, random) > u64::MAX {
        u64::MAX
    } else {
        (delay_ms + jitter(delay_ms, random)) as u64
    }
}

pub fn backoff_delay(base_ms: u64, max_ms: u64, attempt: u32) -> (d: u64)
    ensures
        d == backoff(base_ms, max_ms, attempt),
        d <= max_ms,
{
    let k = if attempt < MAX_BACKOFF_EXPONENT {
        attempt
    } else {
        MAX_BACKOFF_EXPONENT
    };
    let mut factor: u64 = 1;
    let mut i: u32 = 0;
    while i < k
        invariant
            i <= k <= MAX_BACKOFF_EXPONENT,
            factor == two_to(i as nat),
            factor <= 1024,
            two_to(i as nat) * two_to((k - i) as nat) == two_to(k as nat),
        decreases k - i,
    {
        assert(two_to((k - i) as nat) == 2 * two_to((k - i - 1) as nat));
        assert(two_to(i as nat + 1) == 2 * two_to(i as nat));
        assert(two_to(i as nat + 1) * two_to((k - i - 1) as nat) == two_to(k as nat))
            by (nonlinear_arith)
            requires
                two_to(i as nat) * two_to((k - i) as nat) == two_to(k as nat),
                two_to((k - i) as nat) == 2 * two_to((k - i - 1) as nat),
                two_to(i as nat + 1) == 2 * two_to(i as nat),
        ;
        assert(two_to(k as nat) <= 1024 && factor * 2 <= 1024) by {
            lemma_two_to_bound(k as nat);
            lemma_two_to_monotonic(i as nat + 1, k as nat);
        }
        factor = factor * 2;
        i += 1;
    }
    assert(base_ms as u128 * factor as u128 <= 0xFFFF_FFFF_FFFF_FFFF * 1024) by (nonlinear_arith)
        requires
            base_ms <= 0xFFFF_FFFF_FFFF_FFFF,
            factor <= 1024,
    ;
    let scaled: u128 = base_ms as u128 * factor as u128;
    if scaled < max_ms as u128 {
        scaled as u64
    } else {
        max_ms
    }
}

proof fn lemma_two_to_bound(k: nat)
    requires
        k <= 10,
    ensures
        two_to(k) <= 1024,
        two_to(k) >= 1,
    decreases k,
{
    reveal_with_fuel(two_to, 11);
}

proof fn lemma_two_to_monotonic(a: nat, b: nat)
    requires
        a <= b,
    ensures
        two_to(a) <= two_to(b),
    decreases b,
{
    if a < b {
        lemma_two_to_monotonic(a, (b - 1) as nat);
    }
}

/// What the reconnect loop does after a session.
#[derive(Debug, Clone, Copy, PartialEq, Eq, Structural)]
pub enum AfterSession {
    /// The process shuts down: leave the loop.
    Stop,
    /// Wait for the next delay, then connect again.
    Reconnect,
}

/// The reconnect state of one connection. Each connection of a pool has its
/// own, so that one that keeps breaking does not slow down the others.
#[derive(Debug, Clone, Copy, PartialEq, Eq, Structural)]
pub struct Reconnect {
    pub attempts: u32,
}

impl Reconnect {
    pub fn new() -> (r: Reconnect)
        ensures
            r.attempts == 0,
    {
        Reconnect { attempts: 0 }
    }

    /// The attempt counter after a session: back to 0 after a session that
    /// ended as disconnected and lasted at least 30 seconds, else as it
    /// was.
    pub open spec fn attempts_after(
        attempts: u32,
        outcome: Result<TunnelOutcome, String>,
        duration_ms: u64,
    ) -> u32 {
        if outcome == Ok::<TunnelOutcome, String>(TunnelOutcome::Disconnected) && duration_ms
            >= MIN_STABLE_MS {
            0
        } else {
            attempts
        }
    }

    /// Takes note of how a session ended and how long it lasted.
    pub fn record_session(&mut self, outcome: &Result<TunnelOutcome, String>, duration_ms: u64)
        -> (next: AfterSession)
        ensures
            final(self).attempts == Self::attempts_after(
                old(self).attempts,
                *outcome,
                duration_ms,
            ),
            next is Stop <==> *outcome == Ok::<TunnelOutcome, String>(TunnelOutcome::Shutdown),
    {
        match outcome {
            Ok(TunnelOutcome::Shutdown) => AfterSession::Stop,
            Ok(TunnelOutcome::Disconnected) => {
                if duration_ms >= MIN_STABLE_MS {
                    self.attempts = 0;
                }
                AfterSession::Reconnect
            },
            Err(_) => AfterSession::Reconnect,
        }
    }

    /// The delay before the next attempt, which is counted: the backoff for
    /// the attempts so far, plus a jitter that `random` picks.
    pub fn next_reconnect_delay(&mut self, base_ms: u64, max_ms: u64, random: u64) -> (delay_ms:
        u64)
        ensures
            delay_ms == delay_with_jitter(backoff(base_ms, max_ms, old(self).attempts), random),
            delay_ms >= backoff(base_ms, max_ms, old(self).attempts),
            delay_ms - backoff(base_ms, max_ms, old(self).attempts) <= backoff(
                base_ms,
                max_ms,
                old(self).attempts,
            ) / 4,
            final(self).attempts == (if old(self).attempts == u32::MAX {
                u32::MAX
            } else {
                (old(self).attempts + 1) as u32
            }),
    {
        let delay = backoff_delay(base_ms, max_ms, self.attempts);
        let quarter = delay / 4;
        let extra = if quarter == 0 {
            0
        } else {
            random % quarter
        };
        if self.attempts < u32::MAX {
            self.attempts = self.attempts + 1;
        }
        if extra > u64::MAX - delay {
            u64::MAX
        } else {
            delay + extra
        }
    }
}

} // verus!
