//! How the service connects to its database: the pool settings and the
//! retry policy, as a state machine that the caller drives with the outcome
//! of each connection attempt.

use vstd::prelude::*;

verus! {

/// The connection pool settings.
#[derive(Debug, Clone, PartialEq, Eq)]
pub struct ConnectSettings {
    pub max_connections: u32,
    pub min_connections: u32,
    pub connect_timeout_secs: u64,
    pub idle_timeout_secs: u64,
    pub sqlx_logging: bool,
}

/// The pool settings of the service: at most 100 and at least 5
/// connections, 8 seconds to connect, 8 seconds before an idle connection
/// is closed, statement logging on.
pub fn connect_settings() -> (s: ConnectSettings)
    ensures
        s.max_connections == 100,
        s.min_connections == 5,
        s.connect_timeout_secs == 8,
        s.idle_timeout_secs == 8,
        s.sqlx_logging,
{
    ConnectSettings {
        max_connections: 100,
        min_connections: 5,
        connect_timeout_secs: 8,
        idle_timeout_secs: 8,
        sqlx_logging: true,
    }
}

/// The number of failed attempts after which the service gives up.
pub const MAX_CONNECT_RETRIES: u32 = 5;

/// Seconds to wait before the next attempt.
pub const RETRY_DELAY_SECS: u64 = 3;

/// What to do after a connection attempt.
#[derive(Debug, Clone, Copy, PartialEq, Eq)]
pub enum ConnectStep {
    /// The attempt succeeded: use the connection.
    Connected,
    /// The attempt failed: wait this many seconds, then try again.
    RetryAfter(u64),
    /// The attempt failed and it was the last one: report its error.
    GiveUp,
}

/// The state of the retry loop: failed attempts so far, and the limit.
#[derive(Debug, Clone, Copy, PartialEq, Eq)]
pub struct ConnectRetry {
    pub retries: u32,
    pub max_retries: u32,
}

impl ConnectRetry {
    /// Another attempt may still be made.
    pub open spec fn wf(&self) -> bool {
        self.retries < self.max_retries
    }

    /// The state after an attempt, and what to do next.
    pub open spec fn after(self, connected: bool) -> (ConnectRetry, ConnectStep) {
        if connected {
            (self, ConnectStep::Connected)
        } else {
            let next = ConnectRetry { retries: (self.retries + 1) as u32, max_retries: self.max_retries };
            if next.retries >= next.max_retries {
                (next, ConnectStep::GiveUp)
            } else {
                (next, ConnectStep::RetryAfter(RETRY_DELAY_SECS))
            }
        }
    }

    /// The state before the first attempt.
    pub fn new() -> (s: ConnectRetry)
        ensures
            s.retries == 0,
            s.max_retries == MAX_CONNECT_RETRIES,
            s.wf(),
    {
        ConnectRetry { retries: 0, max_retries: MAX_CONNECT_RETRIES }
    }

    /// Records the outcome of an attempt and says what to do next.
    pub fn on_attempt(&mut self, connected: bool) -> (step: ConnectStep)
        requires
            old(self).wf(),
        ensures
            (*final(self), step) == old(self).after(connected),
            step is RetryAfter ==> final(self).wf(),
    {
        if connected {
            ConnectStep::Connected
        } else {
            self.retries = self.retries + 1;
            if self.retries >= self.max_retries {
                ConnectStep::GiveUp
            } else {
                ConnectStep::RetryAfter(RETRY_DELAY_SECS)
            }
        }
    }
}

/// The state and step after `k` failed attempts in a row.
pub open spec fn after_failures(s: ConnectRetry, k: nat) -> (ConnectRetry, ConnectStep)
    decreases k,
{
    if k <= 1 {
        s.after(false)
    } else {
        after_failures(s, (k - 1) as nat).0.after(false)
    }
}

/// From a fresh state, the first four failed attempts each ask for a retry
/// after three seconds and the fifth gives up: the service makes at most
/// five attempts.
pub proof fn lemma_gives_up_after_five_attempts(k: nat)
    requires
        1 <= k <= 5,
    ensures
        after_failures(ConnectRetry { retries: 0, max_retries: MAX_CONNECT_RETRIES }, k).0.retries == k,
        k < 5 ==> after_failures(ConnectRetry { retries: 0, max_retries: MAX_CONNECT_RETRIES }, k).1
            == ConnectStep::RetryAfter(RETRY_DELAY_SECS),
        k == 5 ==> after_failures(ConnectRetry { retries: 0, max_retries: MAX_CONNECT_RETRIES }, k).1
            == ConnectStep::GiveUp,
    decreases k,
{
    let s0 = ConnectRetry { retries: 0, max_retries: MAX_CONNECT_RETRIES };
    if k > 1 {
        lemma_gives_up_after_five_attempts((k - 1) as nat);
        let prev = after_failures(s0, (k - 1) as nat).0;
        assert(prev.max_retries == MAX_CONNECT_RETRIES) by {
            lemma_limit_kept(s0, (k - 1) as nat);
        }
        assert(after_failures(s0, k) == prev.after(false));
    } else {
        assert(after_failures(s0, k) == s0.after(false));
    }
}

/// Failed attempts never change the limit.
proof fn lemma_limit_kept(s: ConnectRetry, k: nat)
    ensures
        after_failures(s, k).0.max_retries == s.max_retries,
    decreases k,
{
    if k > 1 {
        lemma_limit_kept(s, (k - 1) as nat);
    }
}

/// A successful attempt is used at once, whatever failed before it.
pub proof fn lemma_success_is_final(s: ConnectRetry)
    ensures
        s.after(true) == (s, ConnectStep::Connected),
{
}

} // verus!
