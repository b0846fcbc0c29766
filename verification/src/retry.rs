//! The two reconnect policies, kept deliberately distinct.
//!
//! A wallet connection retries forever: each failure adds five seconds per
//! attempt up to a thirty-second cap, a success resets the counter, and once
//! the counter reaches its soft maximum it is halved rather than giving up.
//! The mempool connector instead retries linearly, two seconds per attempt
//! with no cap on the delay, and gives up for good after a fixed number of
//! attempts.

use vstd::prelude::*;

verus! {

/// Seconds added per failed wallet connection attempt.
pub const WALLET_BASE_DELAY_SECS: u64 = 5;

/// The attempt count past which a wallet delay no longer grows.
pub const WALLET_DELAY_CAP_ATTEMPTS: u32 = 6;

/// The soft maximum of counted wallet failures: reaching it halves the
/// counter instead of ending the retries.
pub const WALLET_MAX_RETRIES: u32 = 10;

/// The wallet supervisor's backoff state: how many connection attempts have
/// failed since the last success.
pub struct WalletBackoff {
    pub failures: u32,
}

impl WalletBackoff {
    /// The state is well formed: the counter never passes its soft maximum.
    pub open spec fn wf(&self) -> bool {
        self.failures <= WALLET_MAX_RETRIES
    }

    /// A fresh connection has no counted failures.
    pub fn new() -> (r: WalletBackoff)
        ensures
            r.failures == 0,
            r.wf(),
    {
        WalletBackoff { failures: 0 }
    }

    /// Counts one failed attempt and yields the delay before the next one:
    /// five seconds per counted attempt, capped at thirty seconds. At the
    /// soft maximum the counter is halved so that retries never end.
    pub fn on_failure(&mut self) -> (delay: u64)
        requires
            old(self).wf(),
        ensures
            final(self).wf(),
            delay == WALLET_BASE_DELAY_SECS * (if old(self).failures + 1
                <= WALLET_DELAY_CAP_ATTEMPTS {
                old(self).failures + 1
            } else {
                WALLET_DELAY_CAP_ATTEMPTS as int
            }),
            delay <= 30,
            final(self).failures == (if old(self).failures + 1 >= WALLET_MAX_RETRIES {
                WALLET_MAX_RETRIES / 2
            } else {
                (old(self).failures + 1) as u32
            }),
    {
        self.failures = self.failures + 1;
        let attempt = if self.failures <= WALLET_DELAY_CAP_ATTEMPTS {
            self.failures
        } else {
            WALLET_DELAY_CAP_ATTEMPTS
        };
        let delay = WALLET_BASE_DELAY_SECS * (attempt as u64);
        if self.failures >= WALLET_MAX_RETRIES {
            self.failures = WALLET_MAX_RETRIES / 2;
        }
        delay
    }

    /// A successful connection resets the counter to zero.
    pub fn on_success(&mut self)
        ensures
            final(self).failures == 0,
            final(self).wf(),
    {
        self.failures = 0;
    }
}

/// Seconds added per failed mempool connection attempt.
pub const MEMPOOL_DELAY_STEP_SECS: u64 = 2;

/// What the mempool connector does after a failed attempt.
#[derive(Clone, Copy, Debug, PartialEq, Eq, Structural)]
pub enum RetryDecision {
    /// Try again after this many seconds.
    Retry(u64),
    /// The attempt cap is reached: fail for good.
    GiveUp,
}

/// The mempool connector's bounded retry state.
pub struct MempoolRetry {
    /// Attempts made so far.
    pub attempts: u32,
    /// The hard cap on attempts.
    pub max_attempts: u32,
}

impl MempoolRetry {
    /// A fresh connector has made no attempts.
    pub fn new(max_attempts: u32) -> (r: MempoolRetry)
        ensures
            r.attempts == 0,
            r.max_attempts == max_attempts,
    {
        MempoolRetry { attempts: 0, max_attempts }
    }

    /// Counts one failed attempt. Under the cap, the next attempt follows
    /// after two seconds per attempt made — linear, with no cap on the
    /// delay; at the cap, the connector gives up for good.
    pub fn on_failure(&mut self) -> (d: RetryDecision)
        requires
            old(self).attempts < u32::MAX,
        ensures
            final(self).attempts == old(self).attempts + 1,
            final(self).max_attempts == old(self).max_attempts,
            d == (if old(self).attempts + 1 >= old(self).max_attempts {
                RetryDecision::GiveUp
            } else {
                RetryDecision::Retry(
                    (MEMPOOL_DELAY_STEP_SECS * (old(self).attempts + 1) as u64) as u64,
                )
            }),
    {
        self.attempts = self.attempts + 1;
        if self.attempts >= self.max_attempts {
            RetryDecision::GiveUp
        } else {
            RetryDecision::Retry(MEMPOOL_DELAY_STEP_SECS * (self.attempts as u64))
        }
    }
}

} // verus!
