//! Scheduling of periodic metadata queries, modelled as a state machine.
//!
//! In poll mode the client fetches a metadata path, emits the formatted
//! result, sleeps a fixed interval, and repeats forever. Each iteration is
//! independent: a failed fetch is reported like any other result and has no
//! effect on the schedule of the following ones. The machine here takes the
//! scheduling decisions; the driver sleeps, fetches, and emits.

use vstd::prelude::*;
use crate::fetch::QueryResult;
use crate::refresher::MAX_TIME_MS;

verus! {

/// Smallest accepted polling interval, in milliseconds.
pub const MIN_POLL_INTERVAL_MS: u64 = 500;

/// Largest accepted polling interval, in milliseconds.
pub const MAX_POLL_INTERVAL_MS: u64 = 10000;

/// Whether `interval_ms` lies in the operator-facing range of accepted
/// polling intervals.
pub open spec fn spec_interval_in_range(interval_ms: u64) -> bool {
    MIN_POLL_INTERVAL_MS <= interval_ms <= MAX_POLL_INTERVAL_MS
}

/// Whether `interval_ms` is an accepted polling interval.
pub fn interval_in_range(interval_ms: u64) -> (r: bool)
    ensures
        r == spec_interval_in_range(interval_ms),
{
    MIN_POLL_INTERVAL_MS <= interval_ms && interval_ms <= MAX_POLL_INTERVAL_MS
}

/// What the driver reports to the poll scheduler.
pub enum PollEvent {
    /// A sleep ended; `now_ms` is the current clock reading.
    Wake { now_ms: u64 },
    /// The fetch of the polled path finished at `now_ms` with `result`,
    /// which was emitted. The schedule does not depend on `result`.
    Completed { now_ms: u64, result: QueryResult },
}

/// What the poll scheduler asks the driver to do next.
#[derive(Clone, Copy, PartialEq, Eq, Structural, Debug)]
pub enum PollAction {
    /// Read the current token, fetch the polled path once, emit the
    /// formatted result, and report `Completed`.
    FetchAndEmit,
    /// Sleep until the clock reaches `until_ms` (not at all if it already
    /// has), then report `Wake`.
    SleepUntil { until_ms: u64 },
}

/// The clock reading an event carries.
pub open spec fn poll_event_time(ev: PollEvent) -> u64 {
    match ev {
        PollEvent::Wake { now_ms } => now_ms,
        PollEvent::Completed { now_ms, .. } => now_ms,
    }
}

/// The poll scheduler: the configured interval and the instant before which
/// the next fetch must not start.
pub struct PollState {
    pub interval_ms: u64,
    pub next_fetch_at: u64,
}

impl PollState {
    /// Internal invariant: the interval is in the accepted range and the
    /// schedule stays small enough for `now + interval` arithmetic.
    pub open spec fn wf(&self) -> bool {
        &&& spec_interval_in_range(self.interval_ms)
        &&& self.next_fetch_at <= MAX_TIME_MS + MAX_POLL_INTERVAL_MS
    }

    /// Start polling at `now_ms`: the first fetch is allowed at once.
    pub fn new(interval_ms: u64, now_ms: u64) -> (st: PollState)
        requires
            spec_interval_in_range(interval_ms),
            now_ms <= MAX_TIME_MS,
        ensures
            st.wf(),
            st.interval_ms == interval_ms,
            st.next_fetch_at == now_ms,
    {
        PollState { interval_ms, next_fetch_at: now_ms }
    }

    /// The state after taking `ev`.
    pub open spec fn step_state(self, ev: PollEvent) -> PollState {
        match ev {
            PollEvent::Wake { .. } => self,
            PollEvent::Completed { now_ms, .. } => PollState {
                interval_ms: self.interval_ms,
                next_fetch_at: (now_ms + self.interval_ms) as u64,
            },
        }
    }

    /// The action the driver is asked to perform after taking `ev`.
    pub open spec fn step_action(self, ev: PollEvent) -> PollAction {
        match ev {
            PollEvent::Wake { now_ms } => if now_ms >= self.next_fetch_at {
                PollAction::FetchAndEmit
            } else {
                PollAction::SleepUntil { until_ms: self.next_fetch_at }
            },
            PollEvent::Completed { now_ms, .. } => PollAction::SleepUntil {
                until_ms: (now_ms + self.interval_ms) as u64,
            },
        }
    }

    /// Advance the scheduler by one event and say what the driver must do
    /// next. A wake-up starts a fetch once the scheduled instant is reached;
    /// a completed iteration — whatever its result — schedules the next
    /// fetch one full interval later and asks for the sleep that honours it.
    pub fn step(self, ev: PollEvent) -> (res: (PollState, PollAction))
        requires
            self.wf(),
            poll_event_time(ev) <= MAX_TIME_MS,
        ensures
            res.0 == self.step_state(ev),
            res.1 == self.step_action(ev),
            res.0.wf(),
            res.0.interval_ms == self.interval_ms,
            ev matches PollEvent::Completed { now_ms, .. } ==> res.0.next_fetch_at == now_ms
                + self.interval_ms,
    {
        match ev {
            PollEvent::Wake { now_ms } => {
                if now_ms >= self.next_fetch_at {
                    (self, PollAction::FetchAndEmit)
                } else {
                    let until: u64 = self.next_fetch_at;
                    (self, PollAction::SleepUntil { until_ms: until })
                }
            },
            PollEvent::Completed { now_ms, .. } => {
                let next: u64 = now_ms + self.interval_ms;
                (
                    PollState { interval_ms: self.interval_ms, next_fetch_at: next },
                    PollAction::SleepUntil { until_ms: next },
                )
            },
        }
    }
}

/// Law: the schedule never looks at a fetch's outcome — an iteration that
/// failed leaves the scheduler in exactly the state, and asks for exactly
/// the action, that a successful one at the same instant would have.
pub proof fn lemma_poll_continues_after_failure(
    st: PollState,
    now_ms: u64,
    r1: QueryResult,
    r2: QueryResult,
)
    ensures
        st.step_state(PollEvent::Completed { now_ms, result: r1 }) == st.step_state(
            PollEvent::Completed { now_ms, result: r2 },
        ),
        st.step_action(PollEvent::Completed { now_ms, result: r1 }) == st.step_action(
            PollEvent::Completed { now_ms, result: r2 },
        ),
{
}

/// Law: successive fetches are spaced at least one interval apart. If a
/// wake-up at `t1` starts a fetch, the fetch completes at `t2`, and a later
/// wake-up at `t3` starts the next fetch, then `t3` lies at least
/// `interval_ms` after `t2` (and so after `t1` as well).
pub proof fn lemma_fetches_spaced(st: PollState, t1: u64, t2: u64, result: QueryResult, t3: u64)
    requires
        st.wf(),
        t1 <= t2 <= MAX_TIME_MS,
        st.step_action(PollEvent::Wake { now_ms: t1 }) is FetchAndEmit,
        st.step_state(PollEvent::Wake { now_ms: t1 }).step_state(
            PollEvent::Completed { now_ms: t2, result },
        ).step_action(PollEvent::Wake { now_ms: t3 }) is FetchAndEmit,
    ensures
        t3 >= t2 + st.interval_ms,
        t3 >= t1 + st.interval_ms,
{
}

} // verus!
