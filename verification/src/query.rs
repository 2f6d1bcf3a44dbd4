//! The choices the query resolvers make before they go to the database:
//! page sizes, windows, orderings, filters, and the assembled staking statistics.
use vstd::prelude::*;

verus! {

// ---------------------------------------------------------------------------
// Pages of delegations and undelegations
// ---------------------------------------------------------------------------

/// The most rows a page of delegations or undelegations holds.
pub const MAX_PAGE_LIMIT: i32 = 100;

/// The page size used when none is asked for.
pub const DEFAULT_PAGE_LIMIT: i32 = 50;

/// The page size asked for, capped at `MAX_PAGE_LIMIT`, or `DEFAULT_PAGE_LIMIT`.
pub open spec fn spec_page_limit(limit: Option<i32>) -> i32 {
    match limit {
        Some(l) => if l < MAX_PAGE_LIMIT {
            l
        } else {
            MAX_PAGE_LIMIT
        },
        None => DEFAULT_PAGE_LIMIT,
    }
}

/// The rows to skip: as asked, or none.
pub open spec fn spec_page_offset(offset: Option<i32>) -> i32 {
    match offset {
        Some(o) => o,
        None => 0,
    }
}

/// A page of rows: at most `limit` of them, after skipping `offset`.
#[derive(Clone, Copy, Debug, PartialEq, Eq, Structural)]
pub struct PageWindow {
    pub limit: i64,
    pub offset: i64,
}

/// The page of delegations, undelegations or pending undelegations to fetch.
pub fn page_window(limit: Option<i32>, offset: Option<i32>) -> (r: PageWindow)
    ensures
        r.limit == spec_page_limit(limit),
        r.offset == spec_page_offset(offset),
        offset matches Some(o) ==> r.offset == o,
        offset is None ==> r.offset == 0,
        limit matches Some(l) ==> r.limit == (if l <= MAX_PAGE_LIMIT { l } else { MAX_PAGE_LIMIT }),
        limit is None ==> r.limit == DEFAULT_PAGE_LIMIT,
        r.limit <= MAX_PAGE_LIMIT,
{
    let l: i32 = match limit {
        Some(l) => if l < MAX_PAGE_LIMIT {
            l
        } else {
            MAX_PAGE_LIMIT
        },
        None => DEFAULT_PAGE_LIMIT,
    };
    let o: i32 = match offset {
        Some(o) => o,
        None => 0,
    };
    PageWindow { limit: l as i64, offset: o as i64 }
}

/// Which undelegations of a validator are listed, and in what order.
#[derive(Clone, Copy, Debug, PartialEq, Eq, Structural)]
pub enum UndelegateListing {
    /// Only the unclaimed ones, the earliest release first.
    PendingByReleaseHeight,
    /// All of them, the newest first.
    AllByNewest,
}

/// Only pending undelegations are listed when that is asked for; all otherwise.
pub fn undelegate_listing(pending_only: Option<bool>) -> (r: UndelegateListing)
    ensures
        r == (if pending_only == Some(true) {
            UndelegateListing::PendingByReleaseHeight
        } else {
            UndelegateListing::AllByNewest
        }),
{
    let pending = match pending_only {
        Some(p) => p,
        None => false,
    };
    if pending {
        UndelegateListing::PendingByReleaseHeight
    } else {
        UndelegateListing::AllByNewest
    }
}

// ---------------------------------------------------------------------------
// Undelegations releasing soon
// ---------------------------------------------------------------------------

/// How far ahead to look for releases when the caller does not say.
pub const DEFAULT_BLOCKS_AHEAD: i32 = 7200;

/// The number of blocks to look ahead: as asked, or `DEFAULT_BLOCKS_AHEAD`.
pub open spec fn spec_blocks_ahead(blocks_ahead: Option<i32>) -> int {
    match blocks_ahead {
        Some(b) => b as int,
        None => DEFAULT_BLOCKS_AHEAD as int,
    }
}

/// The number of blocks to look ahead for releases: as asked, or `DEFAULT_BLOCKS_AHEAD`.
pub fn lookahead_blocks(blocks_ahead: Option<i32>) -> (r: i64)
    ensures
        r == spec_blocks_ahead(blocks_ahead),
        blocks_ahead matches Some(b) ==> r == b,
        blocks_ahead is None ==> r == DEFAULT_BLOCKS_AHEAD,
{
    match blocks_ahead {
        Some(b) => b as i64,
        None => DEFAULT_BLOCKS_AHEAD as i64,
    }
}

/// Release heights from `from` to `to`, both included.
#[derive(Clone, Copy, Debug, PartialEq, Eq, Structural)]
pub struct HeightRange {
    pub from: i64,
    pub to: i64,
}

/// The release heights of the undelegations that release soon after `current_height`.
pub fn release_window(current_height: i64, blocks_ahead: Option<i32>) -> (r: HeightRange)
    requires
        i64::MIN <= current_height + spec_blocks_ahead(blocks_ahead) <= i64::MAX,
    ensures
        r.from == current_height,
        r.to == current_height + spec_blocks_ahead(blocks_ahead),
        blocks_ahead matches Some(b) ==> r.to == current_height + b,
        blocks_ahead is None ==> r.to == current_height + DEFAULT_BLOCKS_AHEAD,
{
    let ahead = lookahead_blocks(blocks_ahead);
    HeightRange { from: current_height, to: current_height + ahead }
}

// ---------------------------------------------------------------------------
// Staking statistics of a validator
// ---------------------------------------------------------------------------

/// The staking totals of one validator; amounts are decimal text.
#[derive(Clone, Debug, PartialEq, Eq)]
pub struct ValidatorStakingStats {
    pub validator_identity_key: String,
    pub total_delegations: String,
    pub total_undelegations: String,
    pub pending_undelegations: String,
    pub pending_undelegate_count: i64,
    pub next_release_height: Option<i64>,
}

/// A total as read, or "0" where there is none.
pub open spec fn total_or_zero(total: Option<String>) -> Seq<char> {
    match total {
        Some(t) => t@,
        None => "0"@,
    }
}

fn total_or_zero_text(total: Option<String>) -> (r: String)
    ensures
        r@ == total_or_zero(total),
{
    match total {
        Some(t) => t,
        None => String::from_str("0"),
    }
}

/// Assembles a validator's staking statistics from what the database gave: the
/// totals of delegations and undelegations, and for the unclaimed undelegations
/// their total, count and earliest release height. What is missing reads as zero
/// (and no release height).
pub fn validator_staking_stats(
    validator_id: String,
    total_delegations: Option<String>,
    total_undelegations: Option<String>,
    pending: Option<(String, i64, Option<i64>)>,
) -> (r: ValidatorStakingStats)
    ensures
        r.validator_identity_key@ == validator_id@,
        r.total_delegations@ == total_or_zero(total_delegations),
        r.total_undelegations@ == total_or_zero(total_undelegations),
        match pending {
            Some((amount, count, next)) => {
                &&& r.pending_undelegations@ == amount@
                &&& r.pending_undelegate_count == count
                &&& r.next_release_height == next
            },
            None => {
                &&& r.pending_undelegations@ == "0"@
                &&& r.pending_undelegate_count == 0
                &&& r.next_release_height is None
            },
        },
{
    let (pending_undelegations, pending_undelegate_count, next_release_height) = match pending {
        Some(p) => p,
        None => (String::from_str("0"), 0, None),
    };
    ValidatorStakingStats {
        validator_identity_key: validator_id,
        total_delegations: total_or_zero_text(total_delegations),
        total_undelegations: total_or_zero_text(total_undelegations),
        pending_undelegations,
        pending_undelegate_count,
        next_release_height,
    }
}

// ---------------------------------------------------------------------------
// IBC statistics and flow history
// ---------------------------------------------------------------------------

/// The period over which IBC statistics are aggregated.
#[derive(Clone, Copy, Debug, PartialEq, Eq, Structural)]
pub enum TimePeriod {
    DAY,
    MONTH,
    ALL,
}

/// The period name the statistics are kept under: "24h" for a day, "30d" for a
/// month, none for all time (or when no period is asked for).
pub open spec fn spec_stats_period(time_period: Option<TimePeriod>) -> Option<Seq<char>> {
    match time_period {
        Some(TimePeriod::DAY) => Some("24h"@),
        Some(TimePeriod::MONTH) => Some("30d"@),
        _ => None,
    }
}

/// The period name under which IBC statistics are looked up.
pub fn ibc_stats_period(time_period: Option<TimePeriod>) -> (r: Option<String>)
    ensures
        match r {
            Some(p) => spec_stats_period(time_period) == Some(p@),
            None => spec_stats_period(time_period) is None,
        },
{
    match time_period {
        Some(TimePeriod::DAY) => Some(String::from_str("24h")),
        Some(TimePeriod::MONTH) => Some(String::from_str("30d")),
        _ => None,
    }
}

/// The longest history, in days, that the IBC flow query covers.
pub const MAX_FLOW_HISTORY_DAYS: i32 = 365;

/// The days of history used when none are asked for.
pub const DEFAULT_FLOW_HISTORY_DAYS: i32 = 30;

/// The days of IBC flow history to cover: as asked, capped at a year, or a month.
pub fn flow_history_days(days: Option<i32>) -> (r: i32)
    ensures
        r == (match days {
            Some(d) => if d < MAX_FLOW_HISTORY_DAYS {
                d
            } else {
                MAX_FLOW_HISTORY_DAYS
            },
            None => DEFAULT_FLOW_HISTORY_DAYS,
        }),
        r <= MAX_FLOW_HISTORY_DAYS,
{
    match days {
        Some(d) => if d < MAX_FLOW_HISTORY_DAYS {
            d
        } else {
            MAX_FLOW_HISTORY_DAYS
        },
        None => DEFAULT_FLOW_HISTORY_DAYS,
    }
}

/// The flow history query up to its filter.
pub const FLOW_HISTORY_HEAD: &'static str = r"
        SELECT
            DATE_TRUNC('day', t.timestamp)::DATE::TEXT AS date,
            COALESCE(SUM(CASE WHEN t.direction = 'inbound' AND t.status = 'completed'
                THEN t.amount ELSE 0 END), 0)::TEXT AS inflow_volume,
            COALESCE(SUM(CASE WHEN t.direction = 'outbound' AND t.status = 'completed'
                THEN t.amount ELSE 0 END), 0)::TEXT AS outflow_volume,
            COUNT(*) FILTER (WHERE t.direction = 'inbound' AND t.status = 'completed')
                AS inflow_count,
            COUNT(*) FILTER (WHERE t.direction = 'outbound' AND t.status = 'completed')
                AS outflow_count
        FROM ibc_transfers t
        WHERE ";

/// The flow history query after its filter.
pub const FLOW_HISTORY_TAIL: &'static str = r"
        GROUP BY DATE_TRUNC('day', t.timestamp)
        ORDER BY date ASC
        ";

/// The filter on time: transfers within the last `$1` days.
pub const FLOW_HISTORY_RECENT: &'static str = "t.timestamp > NOW() - make_interval(days => $1::int)";

/// The filter on the client: transfers of client `$2`.
pub const FLOW_HISTORY_CLIENT: &'static str = "t.client_id = $2";

/// The filters of the flow history query, joined by AND: the time window, and the
/// client where one is asked for.
pub open spec fn spec_flow_history_filter(filter_by_client: bool) -> Seq<char> {
    if filter_by_client {
        FLOW_HISTORY_RECENT@ + " AND "@ + FLOW_HISTORY_CLIENT@
    } else {
        FLOW_HISTORY_RECENT@
    }
}

/// The daily IBC inflow/outflow query. It binds the number of days as `$1` and,
/// when filtering by client, the client id as `$2`.
pub fn ibc_flow_history_sql(filter_by_client: bool) -> (r: String)
    ensures
        r@ == FLOW_HISTORY_HEAD@ + spec_flow_history_filter(filter_by_client) + FLOW_HISTORY_TAIL@,
{
    let mut q = String::from_str(FLOW_HISTORY_HEAD);
    q.append(FLOW_HISTORY_RECENT);
    if filter_by_client {
        q.append(" AND ");
        q.append(FLOW_HISTORY_CLIENT);
    }
    q.append(FLOW_HISTORY_TAIL);
    q
}

// ---------------------------------------------------------------------------
// Validators: voting power history and growth
// ---------------------------------------------------------------------------

/// The most voting power history entries returned at once.
pub const MAX_HISTORY_LIMIT: i32 = 10000;

/// The number of history entries returned when none is asked for.
pub const DEFAULT_HISTORY_LIMIT: i32 = 1000;

/// The number of voting power history entries to return: as asked, capped at
/// `MAX_HISTORY_LIMIT`, or `DEFAULT_HISTORY_LIMIT`.
pub fn voting_power_history_limit(limit: Option<i32>) -> (r: i64)
    ensures
        r == (match limit {
            Some(l) => if l < MAX_HISTORY_LIMIT {
                l
            } else {
                MAX_HISTORY_LIMIT
            },
            None => DEFAULT_HISTORY_LIMIT,
        }),
        r <= MAX_HISTORY_LIMIT,
{
    let l: i32 = match limit {
        Some(l) => if l < MAX_HISTORY_LIMIT {
            l
        } else {
            MAX_HISTORY_LIMIT
        },
        None => DEFAULT_HISTORY_LIMIT,
    };
    l as i64
}

/// The time range of a voting power history query.
#[derive(Clone, Copy, Debug, PartialEq, Eq)]
pub enum HistoryRange<T> {
    /// From the first instant to the second, both included.
    Between(T, T),
    /// From the instant on.
    Since(T),
    /// The whole history.
    All,
}

/// The range of voting power history to read: bounded on both sides only when
/// both ends are given; an end without a start is not used.
pub fn voting_power_history_range<T>(start_time: Option<T>, end_time: Option<T>) -> (r:
    HistoryRange<T>)
    ensures
        r == (match (start_time, end_time) {
            (Some(s), Some(e)) => HistoryRange::Between(s, e),
            (Some(s), None) => HistoryRange::Since(s),
            (None, _) => HistoryRange::All,
        }),
{
    match (start_time, end_time) {
        (Some(s), Some(e)) => HistoryRange::Between(s, e),
        (Some(s), None) => HistoryRange::Since(s),
        (None, _) => HistoryRange::All,
    }
}

/// The fewest validators ranked by growth.
pub const MIN_GROWTH_LIMIT: i32 = 1;

/// The most validators ranked by growth.
pub const MAX_GROWTH_LIMIT: i32 = 500;

/// The number of validators ranked when none is asked for.
pub const DEFAULT_GROWTH_LIMIT: i32 = 50;

/// The number of validators to rank by growth: as asked, or `DEFAULT_GROWTH_LIMIT`,
/// brought into `MIN_GROWTH_LIMIT..=MAX_GROWTH_LIMIT`.
pub fn growth_limit(limit: Option<i32>) -> (r: i64)
    ensures
        r == ({
            let l = match limit {
                Some(l) => l,
                None => DEFAULT_GROWTH_LIMIT,
            };
            if l < MIN_GROWTH_LIMIT {
                MIN_GROWTH_LIMIT
            } else if l > MAX_GROWTH_LIMIT {
                MAX_GROWTH_LIMIT
            } else {
                l
            }
        }),
        MIN_GROWTH_LIMIT <= r <= MAX_GROWTH_LIMIT,
{
    let l: i32 = match limit {
        Some(l) => l,
        None => DEFAULT_GROWTH_LIMIT,
    };
    let c: i32 = if l < MIN_GROWTH_LIMIT {
        MIN_GROWTH_LIMIT
    } else if l > MAX_GROWTH_LIMIT {
        MAX_GROWTH_LIMIT
    } else {
        l
    };
    c as i64
}


// ---------------------------------------------------------------------------
// Laws
// ---------------------------------------------------------------------------

/// Only the page size is capped: any offset asked for is the offset used, so
/// the page after `k` full pages of `l` rows starts at row `k * l`.
pub proof fn page_offset_is_as_asked(o: i32)
    ensures
        spec_page_offset(Some(o)) == o,
        spec_page_offset(None) == 0,
{
}

/// A page size asked for is used as asked up to `MAX_PAGE_LIMIT`, and capped there.
pub proof fn page_limit_is_capped_only(l: i32)
    ensures
        l <= MAX_PAGE_LIMIT ==> spec_page_limit(Some(l)) == l,
        l > MAX_PAGE_LIMIT ==> spec_page_limit(Some(l)) == MAX_PAGE_LIMIT,
        spec_page_limit(None) == DEFAULT_PAGE_LIMIT,
{
}

/// The look-ahead asked for is used as given, however far; the default stands
/// in only when none is asked for.
pub proof fn lookahead_is_as_asked(b: i32)
    ensures
        spec_blocks_ahead(Some(b)) == b,
        spec_blocks_ahead(None) == DEFAULT_BLOCKS_AHEAD,
{
}

} // verus!
