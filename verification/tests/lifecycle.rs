use ec2im::PollAction;
use ec2im::PollEvent;
use ec2im::PollState;
use ec2im::QueryResult;
use ec2im::RefreshAction;
use ec2im::RefreshEvent;
use ec2im::RefreshPolicy;
use ec2im::RefresherState;
use ec2im::interval_in_range;

#[test]
fn successful_refresh_replaces_the_pair_and_increases_the_timestamp() {
    let policy = RefreshPolicy::standard();
    let st = RefresherState::new(policy, "first".to_string(), 1_000);
    let before = st.token.obtained_at;
    let (st, act) = st.step(RefreshEvent::Wake { now_ms: 10_801_000 });
    assert_eq!(act, RefreshAction::Fetch);
    let (st, _) = st.step(RefreshEvent::FetchOk { now_ms: 10_801_500, value: "second".to_string() });
    assert_eq!(st.current().as_str(), "second");
    assert_eq!(st.token.obtained_at, 10_801_500);
    assert!(st.token.obtained_at > before);
}

#[test]
fn current_token_stays_young_under_normal_refresh() {
    let policy = RefreshPolicy::standard();
    let st = RefresherState::new(policy, "tok".to_string(), 0);
    // read at the instant the proactive refresh comes due: one offset before expiry
    let now: u64 = 10_800_000;
    assert!(now - st.token.obtained_at < st.policy.ttl_ms);
}

#[test]
fn refresh_failure_backoff_scenario() {
    // TTL of six hours with a two-hour refresh offset: the refresh is due at
    // hour four; failed fetches back off a minute at a time while the
    // original token stays current, until a fetch succeeds.
    let policy = RefreshPolicy { ttl_ms: 21_600_000, refresh_offset_ms: 7_200_000 };
    let st = RefresherState::new(policy, "tok-A".to_string(), 0);
    let (st, act) = st.step(RefreshEvent::Wake { now_ms: 0 });
    assert_eq!(act, RefreshAction::SleepUntil { until_ms: 14_400_000 });
    let (st, act) = st.step(RefreshEvent::Wake { now_ms: 14_400_000 });
    assert_eq!(act, RefreshAction::Fetch);
    let (st, act) = st.step(RefreshEvent::FetchFailed { now_ms: 14_400_100 });
    assert_eq!(act, RefreshAction::SleepFor { duration_ms: 60_000 });
    assert_eq!(st.current().as_str(), "tok-A");
    assert_eq!(st.token.obtained_at, 0);
    let (st, act) = st.step(RefreshEvent::Wake { now_ms: 14_460_100 });
    assert_eq!(act, RefreshAction::Fetch);
    let (st, act) = st.step(RefreshEvent::FetchFailed { now_ms: 14_460_200 });
    assert_eq!(act, RefreshAction::SleepFor { duration_ms: 60_000 });
    assert_eq!(st.current().as_str(), "tok-A");
    let (st, act) = st.step(RefreshEvent::Wake { now_ms: 14_520_200 });
    assert_eq!(act, RefreshAction::Fetch);
    let (st, act) =
        st.step(RefreshEvent::FetchOk { now_ms: 14_520_300, value: "tok-B".to_string() });
    assert_eq!(st.current().as_str(), "tok-B");
    assert_eq!(st.token.obtained_at, 14_520_300);
    assert_eq!(act, RefreshAction::SleepUntil { until_ms: 28_920_300 });
}

#[test]
fn poll_spaces_fetches_and_continues_after_failure() {
    let st = PollState::new(5_000, 1_000);
    let (st, act) = st.step(PollEvent::Wake { now_ms: 1_000 });
    assert_eq!(act, PollAction::FetchAndEmit);
    let failed = QueryResult::Error { reason: "boom".to_string() };
    let (st, act) = st.step(PollEvent::Completed { now_ms: 1_200, result: failed });
    assert_eq!(act, PollAction::SleepUntil { until_ms: 6_200 });
    // an early wake-up goes back to sleep instead of fetching early
    let (st, act) = st.step(PollEvent::Wake { now_ms: 3_000 });
    assert_eq!(act, PollAction::SleepUntil { until_ms: 6_200 });
    let (st, act) = st.step(PollEvent::Wake { now_ms: 6_200 });
    assert_eq!(act, PollAction::FetchAndEmit);
    let ok = QueryResult::Success { value: "v".to_string() };
    let (_st, act) = st.step(PollEvent::Completed { now_ms: 6_300, result: ok });
    assert_eq!(act, PollAction::SleepUntil { until_ms: 11_300 });
}

#[test]
fn poll_interval_range_matches_the_cli_bounds() {
    assert!(interval_in_range(500));
    assert!(interval_in_range(5_000));
    assert!(interval_in_range(10_000));
    assert!(!interval_in_range(499));
    assert!(!interval_in_range(10_001));
}
