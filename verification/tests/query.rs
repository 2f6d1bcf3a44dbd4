use penumbra_explorer::query::{
    lookahead_blocks,
    flow_history_days, growth_limit, ibc_flow_history_sql, ibc_stats_period, page_window,
    release_window, undelegate_listing, validator_staking_stats, voting_power_history_limit,
    voting_power_history_range, HistoryRange, TimePeriod, UndelegateListing, FLOW_HISTORY_CLIENT,
    FLOW_HISTORY_HEAD, FLOW_HISTORY_RECENT, FLOW_HISTORY_TAIL,
};

#[test]
fn pages_are_capped_and_defaulted() {
    let p = page_window(None, None);
    assert_eq!((p.limit, p.offset), (50, 0));
    let p = page_window(Some(500), Some(20));
    assert_eq!((p.limit, p.offset), (100, 20));
    let p = page_window(Some(100), None);
    assert_eq!(p.limit, 100);
    let p = page_window(Some(7), Some(-1));
    assert_eq!((p.limit, p.offset), (7, -1));
    // only an upper bound is applied, as the resolvers do
    assert_eq!(page_window(Some(-5), None).limit, -5);
}

#[test]
fn pending_only_selects_the_listing() {
    assert_eq!(undelegate_listing(Some(true)), UndelegateListing::PendingByReleaseHeight);
    assert_eq!(undelegate_listing(Some(false)), UndelegateListing::AllByNewest);
    assert_eq!(undelegate_listing(None), UndelegateListing::AllByNewest);
}

#[test]
fn release_window_looks_ahead() {
    let w = release_window(1000, None);
    assert_eq!((w.from, w.to), (1000, 8200));
    let w = release_window(1000, Some(10));
    assert_eq!((w.from, w.to), (1000, 1010));
    assert_eq!(lookahead_blocks(None), 7200);
    assert_eq!(lookahead_blocks(Some(3)), 3);
    let w = release_window(1000, Some(-10));
    assert_eq!((w.from, w.to), (1000, 990));
}

#[test]
fn staking_stats_default_to_zero() {
    let st = validator_staking_stats("v".to_string(), None, None, None);
    assert_eq!(st.validator_identity_key, "v");
    assert_eq!(st.total_delegations, "0");
    assert_eq!(st.total_undelegations, "0");
    assert_eq!(st.pending_undelegations, "0");
    assert_eq!(st.pending_undelegate_count, 0);
    assert_eq!(st.next_release_height, None);

    let st = validator_staking_stats(
        "w".to_string(),
        Some("123".to_string()),
        Some("45".to_string()),
        Some(("6".to_string(), 2, Some(99))),
    );
    assert_eq!(
        (
            st.total_delegations.as_str(),
            st.total_undelegations.as_str(),
            st.pending_undelegations.as_str(),
            st.pending_undelegate_count,
            st.next_release_height
        ),
        ("123", "45", "6", 2, Some(99))
    );
}

#[test]
fn stats_periods_have_names() {
    assert_eq!(ibc_stats_period(Some(TimePeriod::DAY)).as_deref(), Some("24h"));
    assert_eq!(ibc_stats_period(Some(TimePeriod::MONTH)).as_deref(), Some("30d"));
    assert_eq!(ibc_stats_period(Some(TimePeriod::ALL)), None);
    assert_eq!(ibc_stats_period(None), None);
}

#[test]
fn flow_history_covers_at_most_a_year() {
    assert_eq!(flow_history_days(None), 30);
    assert_eq!(flow_history_days(Some(7)), 7);
    assert_eq!(flow_history_days(Some(365)), 365);
    assert_eq!(flow_history_days(Some(1000)), 365);
}

#[test]
fn flow_history_query_filters_by_client_only_when_asked() {
    let with = ibc_flow_history_sql(true);
    let without = ibc_flow_history_sql(false);
    assert_eq!(
        without,
        format!("{FLOW_HISTORY_HEAD}{FLOW_HISTORY_RECENT}{FLOW_HISTORY_TAIL}")
    );
    assert_eq!(
        with,
        format!("{FLOW_HISTORY_HEAD}{FLOW_HISTORY_RECENT} AND {FLOW_HISTORY_CLIENT}{FLOW_HISTORY_TAIL}")
    );
    assert!(with.contains("WHERE t.timestamp > NOW() - make_interval(days => $1::int) AND t.client_id = $2\n"));
    assert!(!without.contains("$2"));
    assert!(without.contains("FROM ibc_transfers t"));
    assert!(without.ends_with("ORDER BY date ASC\n        "));
}

#[test]
fn voting_power_history_limits() {
    assert_eq!(voting_power_history_limit(None), 1000);
    assert_eq!(voting_power_history_limit(Some(20)), 20);
    assert_eq!(voting_power_history_limit(Some(50_000)), 10_000);
}

#[test]
fn voting_power_history_range_needs_a_start() {
    assert_eq!(voting_power_history_range(Some(1), Some(5)), HistoryRange::Between(1, 5));
    assert_eq!(voting_power_history_range(Some(1), None), HistoryRange::Since(1));
    assert_eq!(voting_power_history_range(None, Some(5)), HistoryRange::All);
    assert_eq!(voting_power_history_range::<i32>(None, None), HistoryRange::All);
}

#[test]
fn growth_ranking_size_is_clamped() {
    assert_eq!(growth_limit(None), 50);
    assert_eq!(growth_limit(Some(0)), 1);
    assert_eq!(growth_limit(Some(-4)), 1);
    assert_eq!(growth_limit(Some(42)), 42);
    assert_eq!(growth_limit(Some(9999)), 500);
}
