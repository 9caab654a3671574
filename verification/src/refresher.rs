//! The token store's refresh cycle, modelled as a state machine.
//!
//! The store owns the current session token and the instant it was obtained,
//! and refreshes it proactively: a refresh is due `refresh_offset` before the
//! token's TTL runs out, and a failed attempt is retried after a short
//! backoff, indefinitely, while readers keep using the prior token. The
//! machine here takes the decisions; the driver around it sleeps, performs
//! the fetches, and reports back what happened. Time is a reading of the
//! driver's monotonic clock, in milliseconds.

use vstd::prelude::*;

verus! {

/// Total validity duration of a freshly issued session token, in
/// milliseconds (six hours).
pub const TOKEN_TTL_MS: u64 = 21600000;

/// Safety margin subtracted from the TTL to decide when a proactive refresh
/// is due, in milliseconds (three hours).
pub const TOKEN_REFRESH_OFFSET_MS: u64 = 10800000;

/// How long the refresher waits after a failed refresh attempt before
/// trying again, in milliseconds (one minute).
pub const BACKOFF_MS: u64 = 60000;

/// Upper bound on every clock reading the state machines accept, so that
/// schedule arithmetic such as `obtained_at + ttl` never overflows a `u64`.
pub const MAX_TIME_MS: u64 = 0x4000000000000000;

/// When a proactive token refresh is due: `refresh_offset_ms` before the
/// token would expire.
pub struct RefreshPolicy {
    pub ttl_ms: u64,
    pub refresh_offset_ms: u64,
}

impl RefreshPolicy {
    /// A policy is well formed when the refresh margin is positive, leaves a
    /// positive waiting period before each refresh, and the TTL is small
    /// enough for schedule arithmetic.
    pub open spec fn wf(&self) -> bool {
        0 < self.refresh_offset_ms < self.ttl_ms <= MAX_TIME_MS
    }

    /// The policy the client ships with: a six-hour TTL, refreshed three
    /// hours ahead of expiry.
    pub fn standard() -> (p: RefreshPolicy)
        ensures
            p.ttl_ms == TOKEN_TTL_MS,
            p.refresh_offset_ms == TOKEN_REFRESH_OFFSET_MS,
            p.wf(),
    {
        RefreshPolicy { ttl_ms: TOKEN_TTL_MS, refresh_offset_ms: TOKEN_REFRESH_OFFSET_MS }
    }
}

/// The current session token paired with the clock reading at which it was
/// obtained. The pair is only ever replaced as a whole: no state of this
/// library carries a token beside a timestamp that belongs to another token.
pub struct TokenState {
    pub value: String,
    pub obtained_at: u64,
}

/// Where the refresher stands in its cycle.
#[derive(Clone, Copy, PartialEq, Eq, Structural, Debug)]
pub enum RefreshPhase {
    /// Sleeping until the next proactive refresh is due.
    Waiting,
    /// A refresh attempt is in flight.
    Refreshing,
    /// The last attempt failed; sleeping briefly before retrying.
    Backoff,
}

/// What the driver reports to the refresher.
pub enum RefreshEvent {
    /// A sleep ended; `now_ms` is the current clock reading.
    Wake { now_ms: u64 },
    /// A refresh attempt returned a fresh token at `now_ms`.
    FetchOk { now_ms: u64, value: String },
    /// A refresh attempt failed at `now_ms`.
    FetchFailed { now_ms: u64 },
}

/// What the refresher asks the driver to do next.
#[derive(Clone, Copy, PartialEq, Eq, Structural, Debug)]
pub enum RefreshAction {
    /// Sleep until the clock reaches `until_ms` (not at all if it already
    /// has), then report `Wake`.
    SleepUntil { until_ms: u64 },
    /// Attempt one token fetch and report `FetchOk` or `FetchFailed`.
    Fetch,
    /// Sleep for `duration_ms`, then report `Wake`.
    SleepFor { duration_ms: u64 },
}

/// The clock reading an event carries.
pub open spec fn event_time(ev: RefreshEvent) -> u64 {
    match ev {
        RefreshEvent::Wake { now_ms } => now_ms,
        RefreshEvent::FetchOk { now_ms, .. } => now_ms,
        RefreshEvent::FetchFailed { now_ms } => now_ms,
    }
}

/// Which events each phase can receive: sleeps end in `Waiting` and
/// `Backoff`; fetch outcomes arrive only while a fetch is in flight.
pub open spec fn phase_accepts(phase: RefreshPhase, ev: RefreshEvent) -> bool {
    match ev {
        RefreshEvent::Wake { .. } => phase is Waiting || phase is Backoff,
        RefreshEvent::FetchOk { .. } => phase is Refreshing,
        RefreshEvent::FetchFailed { .. } => phase is Refreshing,
    }
}

/// The token store's refresher: the current token, the phase of the refresh
/// cycle, and the latest clock reading it has seen.
pub struct RefresherState {
    pub policy: RefreshPolicy,
    pub token: TokenState,
    pub phase: RefreshPhase,
    pub clock: u64,
}

impl RefresherState {
    /// When the next proactive refresh of the current token is due.
    pub open spec fn due_time(&self) -> int {
        self.token.obtained_at + self.policy.ttl_ms - self.policy.refresh_offset_ms
    }

    /// Internal invariant: the policy is well formed, the clock never runs
    /// behind the token's acquisition instant, and a fetch is only ever in
    /// flight (or backed off from) once the refresh was due.
    pub open spec fn wf(&self) -> bool {
        &&& self.policy.wf()
        &&& self.token.obtained_at <= self.clock <= MAX_TIME_MS
        &&& !(self.phase is Waiting) ==> self.clock >= self.due_time()
    }

    /// Start the refresher with a token just obtained at `now_ms`: it begins
    /// by waiting for that token's proactive refresh.
    pub fn new(policy: RefreshPolicy, value: String, now_ms: u64) -> (st: RefresherState)
        requires
            policy.wf(),
            now_ms <= MAX_TIME_MS,
        ensures
            st.wf(),
            st.policy == policy,
            st.token.value == value,
            st.token.obtained_at == now_ms,
            st.phase is Waiting,
            st.clock == now_ms,
    {
        RefresherState {
            policy,
            token: TokenState { value, obtained_at: now_ms },
            phase: RefreshPhase::Waiting,
            clock: now_ms,
        }
    }

    /// Non-blocking read of the latest stored token: always the value of the
    /// current, fully formed pair.
    pub fn current(&self) -> (t: &String)
        ensures
            t == &self.token.value,
    {
        &self.token.value
    }

    /// When the next proactive refresh is due on the driver's clock.
    pub fn due_at(&self) -> (t: u64)
        requires
            self.wf(),
        ensures
            t == self.due_time(),
    {
        self.token.obtained_at + (self.policy.ttl_ms - self.policy.refresh_offset_ms)
    }

    /// The state after taking `ev`.
    pub open spec fn step_state(self, ev: RefreshEvent) -> RefresherState {
        match ev {
            RefreshEvent::Wake { now_ms } => if now_ms >= self.due_time() {
                RefresherState { phase: RefreshPhase::Refreshing, clock: now_ms, ..self }
            } else {
                RefresherState { phase: RefreshPhase::Waiting, clock: now_ms, ..self }
            },
            RefreshEvent::FetchOk { now_ms, value } => RefresherState {
                token: TokenState { value, obtained_at: now_ms },
                phase: RefreshPhase::Waiting,
                clock: now_ms,
                ..self
            },
            RefreshEvent::FetchFailed { now_ms } => RefresherState {
                phase: RefreshPhase::Backoff,
                clock: now_ms,
                ..self
            },
        }
    }

    /// The action the driver is asked to perform after taking `ev`.
    pub open spec fn step_action(self, ev: RefreshEvent) -> RefreshAction {
        match ev {
            RefreshEvent::Wake { now_ms } => if now_ms >= self.due_time() {
                RefreshAction::Fetch
            } else {
                RefreshAction::SleepUntil { until_ms: self.due_time() as u64 }
            },
            RefreshEvent::FetchOk { now_ms, .. } => RefreshAction::SleepUntil {
                until_ms: (now_ms + self.policy.ttl_ms - self.policy.refresh_offset_ms) as u64,
            },
            RefreshEvent::FetchFailed { .. } => RefreshAction::SleepFor {
                duration_ms: BACKOFF_MS,
            },
        }
    }

    /// Advance the refresher by one event and say what the driver must do
    /// next. A successful fetch replaces the token and its timestamp as one
    /// pair — the timestamp strictly increases — and schedules the next
    /// proactive refresh; a failed fetch leaves the token untouched and asks
    /// for a short backoff before the retry; a wake-up either starts a fetch
    /// (once the refresh is due) or goes back to sleep until it is.
    pub fn step(self, ev: RefreshEvent) -> (res: (RefresherState, RefreshAction))
        requires
            self.wf(),
            phase_accepts(self.phase, ev),
            self.clock <= event_time(ev) <= MAX_TIME_MS,
        ensures
            res.0 == self.step_state(ev),
            res.1 == self.step_action(ev),
            res.0.wf(),
            res.0.policy == self.policy,
            res.0.clock == event_time(ev),
            ev matches RefreshEvent::FetchOk { now_ms, value } ==> {
                &&& res.0.token.value == value
                &&& res.0.token.obtained_at == now_ms
                &&& res.0.token.obtained_at > self.token.obtained_at
            },
            !(ev is FetchOk) ==> res.0.token == self.token,
    {
        match ev {
            RefreshEvent::Wake { now_ms } => {
                let due: u64 = self.due_at();
                if now_ms >= due {
                    (
                        RefresherState { phase: RefreshPhase::Refreshing, clock: now_ms, ..self },
                        RefreshAction::Fetch,
                    )
                } else {
                    (
                        RefresherState { phase: RefreshPhase::Waiting, clock: now_ms, ..self },
                        RefreshAction::SleepUntil { until_ms: due },
                    )
                }
            },
            RefreshEvent::FetchOk { now_ms, value } => {
                let next = RefresherState {
                    policy: self.policy,
                    token: TokenState { value, obtained_at: now_ms },
                    phase: RefreshPhase::Waiting,
                    clock: now_ms,
                };
                let until: u64 = next.due_at();
                (next, RefreshAction::SleepUntil { until_ms: until })
            },
            RefreshEvent::FetchFailed { now_ms } => {
                (
                    RefresherState { phase: RefreshPhase::Backoff, clock: now_ms, ..self },
                    RefreshAction::SleepFor { duration_ms: BACKOFF_MS },
                )
            },
        }
    }
}

/// Law: a successful refresh replaces the token value and its acquisition
/// timestamp together, and the timestamp strictly increases — an observer of
/// the new state sees the new value paired with the new, strictly later
/// timestamp, never a mixed pair.
pub proof fn lemma_refresh_replaces_pair(st: RefresherState, now_ms: u64, value: String)
    requires
        st.wf(),
        st.phase is Refreshing,
        st.clock <= now_ms <= MAX_TIME_MS,
    ensures
        st.step_state(RefreshEvent::FetchOk { now_ms, value }).token == (TokenState {
            value,
            obtained_at: now_ms,
        }),
        st.step_state(RefreshEvent::FetchOk { now_ms, value }).token.obtained_at
            > st.token.obtained_at,
{
}

/// Law: across every step the refresher can take, the token's acquisition
/// timestamp never decreases — only a successful refresh moves it, and only
/// forward.
pub proof fn lemma_obtained_at_monotonic(st: RefresherState, ev: RefreshEvent)
    requires
        st.wf(),
        phase_accepts(st.phase, ev),
        st.clock <= event_time(ev) <= MAX_TIME_MS,
    ensures
        st.step_state(ev).token.obtained_at >= st.token.obtained_at,
{
}

/// Law: under normal refresh operation — every refresh, retries included,
/// completes within the refresh-offset window that follows its due time —
/// a read at any instant observes a token younger than the TTL.
pub proof fn lemma_current_token_fresh(st: RefresherState, now_ms: u64)
    requires
        st.wf(),
        st.token.obtained_at <= now_ms,
        now_ms < st.due_time() + st.policy.refresh_offset_ms,
    ensures
        now_ms - st.token.obtained_at < st.policy.ttl_ms,
{
}

/// Law: a failed refresh attempt leaves the token state untouched — the
/// prior token, with its original timestamp, remains the current one until a
/// refresh succeeds.
pub proof fn lemma_failed_refresh_keeps_token(st: RefresherState, now_ms: u64)
    requires
        st.wf(),
        st.phase is Refreshing,
        st.clock <= now_ms <= MAX_TIME_MS,
    ensures
        st.step_state(RefreshEvent::FetchFailed { now_ms }).token == st.token,
{
}

} // verus!
