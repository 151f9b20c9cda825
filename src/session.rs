//! The notification loop of one connected client, as a state machine: the
//! host performs each scan, sleep and send; the decisions are made here.

use vstd::prelude::*;
use crate::spark::VigilConfig;
use crate::watermark::Watermark;

verus! {

/// Consecutive failed scans after which a session closes.
pub const MAX_CONSECUTIVE_ERRORS: u32 = 5;

/// Milliseconds to wait after the connection message before the first poll.
pub const STARTUP_DELAY_MS: u64 = 1000;

/// A keepalive ping is sent when the random byte drawn for a poll is below
/// this (about one poll in 25).
pub const PING_THRESHOLD: u8 = 10;

/// What one poll's scan came to.
pub enum ScanOutcome {
    /// The scan reported a change of the file at this path.
    Changed(String),
    /// The scan ran and found nothing new.
    Unchanged,
    /// The scan task itself could not be run or joined.
    Failed,
}

/// The state of one client's session.
pub struct Session {
    pub consecutive_errors: u32,
    pub closed: bool,
}

/// What the host does after one poll, in this order: send the reload message
/// for `reload` and wait `cooldown_ms`; send a ping if `ping`; wait
/// `interval_ms` and poll again. When `close` is set it only ends the session.
pub struct TickPlan {
    pub reload: Option<String>,
    pub cooldown_ms: Option<u64>,
    pub ping: bool,
    pub close: bool,
    pub interval_ms: u64,
}

impl Session {
    /// An open session is one whose error count is still under the limit.
    pub open spec fn wf(&self) -> bool {
        self.closed || self.consecutive_errors < MAX_CONSECUTIVE_ERRORS
    }
}

/// The error count after an outcome: a reported change clears it, a failed
/// scan adds one, a scan without change leaves it.
pub open spec fn errors_after(errors: u32, outcome: ScanOutcome) -> u32 {
    match outcome {
        ScanOutcome::Changed(_) => 0,
        ScanOutcome::Unchanged => errors,
        ScanOutcome::Failed => (errors + 1) as u32,
    }
}

/// The session after one poll. A closed session stays as it is.
pub open spec fn next_session(s: Session, outcome: ScanOutcome) -> Session {
    if s.closed {
        s
    } else {
        let e = errors_after(s.consecutive_errors, outcome);
        Session { consecutive_errors: e, closed: e >= MAX_CONSECUTIVE_ERRORS }
    }
}

/// `p` is what the host is told to do after a poll of `s` with `outcome`,
/// `roll` being the random byte drawn for that poll.
pub open spec fn plan_for(p: TickPlan, s: Session, outcome: ScanOutcome, roll: u8, cfg: VigilConfig) -> bool {
    let n = next_session(s, outcome);
    if n.closed {
        &&& p.close
        &&& p.reload.is_none()
        &&& p.cooldown_ms.is_none()
        &&& !p.ping
    } else {
        &&& !p.close
        &&& match outcome {
            ScanOutcome::Changed(path) => {
                &&& p.reload.is_some()
                &&& p.reload.unwrap()@ == path@
                &&& p.cooldown_ms == Some(cfg.cooldown_period as u64)
            },
            _ => p.reload.is_none() && p.cooldown_ms.is_none(),
        }
        &&& p.ping == (n.consecutive_errors == 0 && roll < PING_THRESHOLD)
        &&& p.interval_ms == cfg.refresh_interval as u64
    }
}

impl Session {
    /// Opens a session: the watermark is reset to `now`, the moment of
    /// connection, and no error has been seen. The host then sends the
    /// connection message and waits `STARTUP_DELAY_MS` before the first poll.
    pub fn connect(watermark: &mut Watermark, now: u64) -> (r: Session)
        ensures
            final(watermark).value == now,
            r.consecutive_errors == 0,
            !r.closed,
            r.wf(),
    {
        watermark.reset_to_now(now);
        Session { consecutive_errors: 0, closed: false }
    }

    /// Decides what follows a poll whose scan came to `outcome`; `roll` is the
    /// random byte drawn for the keepalive ping.
    pub fn on_scan(&mut self, outcome: ScanOutcome, roll: u8, cfg: &VigilConfig) -> (p: TickPlan)
        requires
            old(self).wf(),
        ensures
            *final(self) == next_session(*old(self), outcome),
            final(self).wf(),
            plan_for(p, *old(self), outcome, roll, *cfg),
    {
        let closing = TickPlan { reload: None, cooldown_ms: None, ping: false, close: true, interval_ms: 0 };
        if self.closed {
            return closing;
        }
        let mut reload: Option<String> = None;
        let mut cooldown_ms: Option<u64> = None;
        match outcome {
            ScanOutcome::Changed(path) => {
                reload = Some(path);
                cooldown_ms = Some(cfg.cooldown_period as u64);
                self.consecutive_errors = 0;
            },
            ScanOutcome::Unchanged => {},
            ScanOutcome::Failed => {
                self.consecutive_errors = self.consecutive_errors + 1;
                if self.consecutive_errors >= MAX_CONSECUTIVE_ERRORS {
                    self.closed = true;
                    return closing;
                }
            },
        }
        let ping = self.consecutive_errors == 0 && roll < PING_THRESHOLD;
        TickPlan { reload, cooldown_ms, ping, close: false, interval_ms: cfg.refresh_interval as u64 }
    }
}

} // verus!

verus! {

/// The session after polls with each outcome of `outcomes` in turn.
pub open spec fn run(s: Session, outcomes: Seq<ScanOutcome>) -> Session
    decreases outcomes.len(),
{
    if outcomes.len() == 0 {
        s
    } else {
        next_session(run(s, outcomes.drop_last()), outcomes.last())
    }
}

/// The number of failed scans since the last reported change (or since the
/// start).
pub open spec fn failures_since_change(outcomes: Seq<ScanOutcome>) -> nat
    decreases outcomes.len(),
{
    if outcomes.len() == 0 {
        0
    } else {
        match outcomes.last() {
            ScanOutcome::Changed(_) => 0,
            ScanOutcome::Unchanged => failures_since_change(outcomes.drop_last()),
            ScanOutcome::Failed => failures_since_change(outcomes.drop_last()) + 1,
        }
    }
}

/// The session that `connect` opens.
pub open spec fn fresh_session() -> Session {
    Session { consecutive_errors: 0, closed: false }
}

/// A session closes exactly when, at some poll, five scans have failed since
/// the last reported change: failures fewer than that, with a change between
/// them, never close it. While it is open its error count is that number.
pub proof fn lemma_error_escalation(outcomes: Seq<ScanOutcome>)
    ensures
        run(fresh_session(), outcomes).closed <==> exists|k: int|
            0 < k <= outcomes.len() && #[trigger] failures_since_change(outcomes.take(k)) >= MAX_CONSECUTIVE_ERRORS,
        !run(fresh_session(), outcomes).closed ==> run(fresh_session(), outcomes).consecutive_errors
            == failures_since_change(outcomes),
        run(fresh_session(), outcomes).wf(),
    decreases outcomes.len(),
{
    if outcomes.len() > 0 {
        let rest = outcomes.drop_last();
        let n = outcomes.len() as int;
        lemma_error_escalation(rest);
        assert(outcomes.take(n) =~= outcomes);
        assert forall|k: int| 0 < k < n implies #[trigger] outcomes.take(k) =~= rest.take(k) by {}
        if run(fresh_session(), rest).closed {
            let k = choose|k: int|
                0 < k <= rest.len() && #[trigger] failures_since_change(rest.take(k)) >= MAX_CONSECUTIVE_ERRORS;
            assert(outcomes.take(k) =~= rest.take(k));
        } else {
            assert(outcomes.drop_last() == rest);
            if failures_since_change(outcomes) >= MAX_CONSECUTIVE_ERRORS {
                assert(failures_since_change(outcomes.take(n)) >= MAX_CONSECUTIVE_ERRORS);
            }
            if exists|k: int| 0 < k <= n && #[trigger] failures_since_change(outcomes.take(k)) >= MAX_CONSECUTIVE_ERRORS {
                let k = choose|k: int|
                    0 < k <= n && #[trigger] failures_since_change(outcomes.take(k)) >= MAX_CONSECUTIVE_ERRORS;
                if k < n {
                    assert(outcomes.take(k) =~= rest.take(k));
                }
            }
        }
    }
}

/// After a poll that sends a reload message, the host waits at least the
/// cooldown period before it polls again, so no second reload message can
/// follow within that period.
pub proof fn lemma_cooldown_after_reload(
    p: TickPlan,
    s: Session,
    outcome: ScanOutcome,
    roll: u8,
    cfg: VigilConfig,
)
    requires
        plan_for(p, s, outcome, roll, cfg),
        p.reload.is_some(),
    ensures
        p.cooldown_ms == Some(cfg.cooldown_period as u64),
        p.cooldown_ms.unwrap() + p.interval_ms >= cfg.cooldown_period,
        !p.close,
{
}

} // verus!
