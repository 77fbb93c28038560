//! Account analytics: the per-account summary and per-strategy performance
//! built from the trade counts and profit sums the database reports.
use crate::decimal::{decimal_checked_div, int_dv, opt_view, Dec, DecV};
use vstd::prelude::*;

verus! {

/// An account's trading record.
#[derive(Clone, Debug)]
pub struct AnalyticsSummary {
    pub account_id: String,
    pub total_trades: i64,
    pub open_trades: i64,
    pub closed_trades: i64,
    pub winning_trades: i64,
    pub losing_trades: i64,
    pub win_rate: Dec,
    pub total_pnl: Dec,
    pub avg_pnl: Dec,
    pub best_trade: Option<Dec>,
    pub worst_trade: Option<Dec>,
}

/// One strategy's record on an account.
#[derive(Clone, Debug)]
pub struct StrategyPerf {
    pub strategy_id: String,
    pub trades: i64,
    pub win_rate: Dec,
    pub total_pnl: Dec,
}

/// Wins over closed trades, zero when nothing has closed.
pub open spec fn win_rate_spec(wins: i64, closed: i64) -> Option<DecV> {
    if closed > 0 {
        decimal_checked_div(int_dv(wins as int), int_dv(closed as int))
    } else {
        Some(int_dv(0))
    }
}

/// The share of closed trades that won (`None` when the quotient cannot be
/// represented).
pub fn win_rate(wins: i64, closed: i64) -> (r: Option<Dec>)
    ensures
        opt_view(r) == win_rate_spec(wins, closed),
        r matches Some(x) ==> x.wf(),
{
    if closed > 0 {
        Dec::from_i64(wins).div(&Dec::from_i64(closed))
    } else {
        Some(Dec::zero())
    }
}

/// Trade counts of an account, as the database reports them.
#[derive(Clone, Copy, Debug)]
pub struct TradeCounts {
    pub total: i64,
    pub open: i64,
    pub closed: i64,
    pub wins: i64,
    pub losses: i64,
}

/// The account summary: the counts as reported, the win rate computed from
/// them, and the profit figures as summed by the database.
pub fn analytics_summary(
    account_id: String,
    counts: TradeCounts,
    total_pnl: Dec,
    avg_pnl: Dec,
    best_trade: Option<Dec>,
    worst_trade: Option<Dec>,
) -> (r: Option<AnalyticsSummary>)
    ensures
        win_rate_spec(counts.wins, counts.closed) is None <==> r is None,
        r matches Some(s) ==> {
            &&& s.account_id == account_id
            &&& s.total_trades == counts.total
            &&& s.open_trades == counts.open
            &&& s.closed_trades == counts.closed
            &&& s.winning_trades == counts.wins
            &&& s.losing_trades == counts.losses
            &&& win_rate_spec(counts.wins, counts.closed) == Some(s.win_rate@)
            &&& s.total_pnl == total_pnl
            &&& s.avg_pnl == avg_pnl
            &&& s.best_trade == best_trade
            &&& s.worst_trade == worst_trade
        },
{
    let rate = match win_rate(counts.wins, counts.closed) {
        Some(x) => x,
        None => {
            return None;
        },
    };
    Some(
        AnalyticsSummary {
            account_id,
            total_trades: counts.total,
            open_trades: counts.open,
            closed_trades: counts.closed,
            winning_trades: counts.wins,
            losing_trades: counts.losses,
            win_rate: rate,
            total_pnl,
            avg_pnl,
            best_trade,
            worst_trade,
        },
    )
}

/// A strategy's record: its trade count, win rate over its closed trades
/// and summed profit.
pub fn strategy_perf(strategy_id: String, trades: i64, closed: i64, wins: i64, total_pnl: Dec) -> (r: Option<
    StrategyPerf,
>)
    ensures
        win_rate_spec(wins, closed) is None <==> r is None,
        r matches Some(p) ==> {
            &&& p.strategy_id == strategy_id
            &&& p.trades == trades
            &&& win_rate_spec(wins, closed) == Some(p.win_rate@)
            &&& p.total_pnl == total_pnl
        },
{
    match win_rate(wins, closed) {
        Some(rate) => Some(StrategyPerf { strategy_id, trades, win_rate: rate, total_pnl }),
        None => None,
    }
}

} // verus!
