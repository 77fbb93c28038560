//! Historical backtesting: the candle series is replayed bar by bar after a
//! warm-up; a fresh signal opens one simulated position at a time, which is
//! closed at its stop-loss or take-profit (stop first), on a signal for the
//! other side, or at the end of the data.  The result holds the trades, the equity curve, the drawdown and
//! the summary statistics.
use crate::decimal::{
    opt_view, abs_v, decimal_checked_add, decimal_checked_div, decimal_checked_mul, decimal_checked_sub, dv_eq, dv_is_zero,
    dv_le, dv_lt, int_dv, round_dp_spec, scaled_dv, Dec, DecV,
};
use crate::domain::{candles_wf, AssetClass, Candle, Rule, Side, Strategy};
use crate::engine::{evaluate_at, rules_weights_wf, signal_spec, EngineError, WindowSignal};
use crate::indicators::Indicators;
use crate::text::u64_text;
use vstd::prelude::*;

verus! {

/// Bars needed before the engine starts producing signals.
pub const WARMUP: usize = 210;

/// The engine's view of one bar: indicators over the trailing window and
/// whether each rule's expression evaluated to true there.
pub struct BarReading {
    pub indicators: Indicators,
    pub fired: Vec<bool>,
}

#[derive(Clone, Debug)]
pub struct BacktestTrade {
    pub side: Side,
    pub entry_ts: i64,
    pub entry_price: Dec,
    pub exit_ts: i64,
    pub exit_price: Dec,
    pub pnl: Dec,
    pub exit_reason: String,
    pub strength: Dec,
}

#[derive(Clone, Copy, Debug)]
pub struct EquityPoint {
    pub ts: i64,
    pub equity: Dec,
}

/// Summary of a backtest.  The Sharpe ratio needs the square root of the
/// profits' variance, taken in floating point by the caller: `run` leaves
/// it at zero and `with_sharpe` fills it in.
pub struct BacktestResult {
    pub symbol: String,
    pub initial_balance: Dec,
    pub final_equity: Dec,
    pub total_return_pct: Dec,
    pub trades: Vec<BacktestTrade>,
    pub closed_trades: usize,
    pub winning_trades: usize,
    pub losing_trades: usize,
    pub win_rate: Dec,
    pub total_pnl: Dec,
    pub avg_pnl: Dec,
    pub max_drawdown_pct: Dec,
    pub sharpe_ratio: Dec,
    pub equity_curve: Vec<EquityPoint>,
}

#[derive(Clone, Copy, Debug, PartialEq, Eq, Structural)]
pub enum BacktestError {
    /// Fewer candles than the warm-up needs (the count is given).
    NotEnoughCandles(usize),
    /// A decimal operation overflowed or divided by zero.
    Arithmetic,
}

impl BacktestError {
    /// The error as the API reports it.
    pub fn message(&self) -> (r: String)
        ensures
            match *self {
                BacktestError::NotEnoughCandles(n) => r@ == "need at least "@ + crate::text::nat_text(
                    WARMUP as nat,
                ) + " candles for warmup, got "@ + crate::text::nat_text(n as nat),
                BacktestError::Arithmetic => r@ == "arithmetic overflow"@,
            },
    {
        match self {
            BacktestError::NotEnoughCandles(n) => {
                let mut s = String::from_str("need at least ");
                s.append(u64_text(WARMUP as u64).as_str());
                s.append(" candles for warmup, got ");
                s.append(u64_text(*n as u64).as_str());
                s
            },
            BacktestError::Arithmetic => String::from_str("arithmetic overflow"),
        }
    }
}

// ---------------------------------------------------------------------------
// Open position.
// ---------------------------------------------------------------------------
/// A simulated open position.
#[derive(Clone, Copy, Debug)]
pub struct OpenPos {
    pub side: Side,
    pub entry_ts: i64,
    pub entry_price: Dec,
    pub stop: Option<Dec>,
    pub take_profit: Option<Dec>,
    pub strength: Dec,
    pub size: Dec,
}

pub struct PosV {
    pub side: Side,
    pub entry_ts: int,
    pub entry_price: DecV,
    pub stop: Option<DecV>,
    pub take_profit: Option<DecV>,
    pub strength: DecV,
    pub size: DecV,
}

pub open spec fn opt_v(o: Option<Dec>) -> Option<DecV> {
    match o {
        Some(d) => Some(d@),
        None => None,
    }
}

pub open spec fn opt_wf(o: Option<Dec>) -> bool {
    match o {
        Some(d) => d.wf(),
        None => true,
    }
}

impl View for OpenPos {
    type V = PosV;

    open spec fn view(&self) -> PosV {
        PosV {
            side: self.side,
            entry_ts: self.entry_ts as int,
            entry_price: self.entry_price@,
            stop: opt_v(self.stop),
            take_profit: opt_v(self.take_profit),
            strength: self.strength@,
            size: self.size@,
        }
    }
}

/// Profit of closing at `exit`: price difference in the position's favour
/// times the size, 4 decimals.
pub open spec fn pnl_spec(pos: PosV, exit: DecV) -> Option<DecV> {
    let d = if pos.side == Side::Buy {
        decimal_checked_sub(exit, pos.entry_price)
    } else {
        decimal_checked_sub(pos.entry_price, exit)
    };
    match d {
        None => None,
        Some(per_unit) => match decimal_checked_mul(per_unit, pos.size) {
            None => None,
            Some(p) => Some(round_dp_spec(p, 4)),
        },
    }
}

impl OpenPos {
    pub open spec fn wf(&self) -> bool {
        self.entry_price.wf() && opt_wf(self.stop) && opt_wf(self.take_profit) && self.strength.wf()
            && self.size.wf()
    }

    /// Profit of closing at `exit` (`None` on overflow).
    pub fn pnl(&self, exit: &Dec) -> (r: Option<Dec>)
        requires
            self.wf(),
            exit.wf(),
        ensures
            opt_v(r) == pnl_spec(self@, exit@),
            r matches Some(x) ==> x.wf(),
    {
        let per_unit = match self.side {
            Side::Buy => exit.sub(&self.entry_price)?,
            Side::Sell => self.entry_price.sub(exit)?,
        };
        let p = per_unit.mul(&self.size)?;
        Some(p.round_dp(4))
    }

    /// Profit if closed at `price` now.
    pub fn unrealized(&self, price: &Dec) -> (r: Option<Dec>)
        requires
            self.wf(),
            price.wf(),
        ensures
            opt_v(r) == pnl_spec(self@, price@),
            r matches Some(x) ==> x.wf(),
    {
        self.pnl(price)
    }
}

/// Exit price and reason when the bar reaches the stop (checked first) or
/// the target: a buy stops when the low reaches the stop and takes profit
/// when the high reaches the target; a sell the other way round.
pub open spec fn exit_spec(pos: PosV, bar: Candle) -> Option<(DecV, Seq<char>)> {
    let stop_hit = match pos.stop {
        Some(sl) => if pos.side == Side::Buy {
            dv_le(bar.low@, sl)
        } else {
            dv_le(sl, bar.high@)
        },
        None => false,
    };
    let tp_hit = match pos.take_profit {
        Some(tp) => if pos.side == Side::Buy {
            dv_le(tp, bar.high@)
        } else {
            dv_le(bar.low@, tp)
        },
        None => false,
    };
    if stop_hit {
        Some((pos.stop.unwrap(), "stop_loss"@))
    } else if tp_hit {
        Some((pos.take_profit.unwrap(), "take_profit"@))
    } else {
        None
    }
}

/// Whether the bar's range triggers the stop-loss or take-profit.
pub fn check_exit(pos: &OpenPos, bar: &Candle) -> (r: Option<(Dec, String)>)
    requires
        pos.wf(),
        bar.wf(),
    ensures
        match r {
            Some((p, s)) => exit_spec(pos@, *bar) == Some((p@, s@)) && p.wf(),
            None => exit_spec(pos@, *bar) is None,
        },
{
    if let Some(sl) = pos.stop {
        let hit = match pos.side {
            Side::Buy => bar.low.le(&sl),
            Side::Sell => sl.le(&bar.high),
        };
        if hit {
            return Some((sl, String::from_str("stop_loss")));
        }
    }
    if let Some(tp) = pos.take_profit {
        let hit = match pos.side {
            Side::Buy => tp.le(&bar.high),
            Side::Sell => bar.low.le(&tp),
        };
        if hit {
            return Some((tp, String::from_str("take_profit")));
        }
    }
    None
}

// ---------------------------------------------------------------------------
// Levels and size.
// ---------------------------------------------------------------------------
/// 0.0001 per pip for forex, 1 point for indices.
pub open spec fn pip_of(a: AssetClass) -> DecV {
    if a == AssetClass::Forex {
        scaled_dv(1, 4)
    } else {
        int_dv(1)
    }
}

/// A level `pips` pips from the entry, below or above it, 6 decimals.
pub open spec fn level_spec(entry: DecV, pips: Option<DecV>, pip: DecV, below: bool) -> Option<Option<DecV>> {
    match pips {
        None => Some(None),
        Some(p) => match decimal_checked_mul(p, pip) {
            None => None,
            Some(d) => match (if below {
                decimal_checked_sub(entry, d)
            } else {
                decimal_checked_add(entry, d)
            }) {
                None => None,
                Some(v) => Some(Some(round_dp_spec(v, 6))),
            },
        },
    }
}

/// Stop below and target above the entry for a buy, the reverse for a sell.
pub open spec fn levels_spec(s: Strategy, side: Side, entry: DecV) -> Option<(Option<DecV>, Option<DecV>)> {
    let pip = pip_of(s.asset_class);
    match (
        level_spec(entry, opt_v(s.stop_loss), pip, side == Side::Buy),
        level_spec(entry, opt_v(s.take_profit), pip, side != Side::Buy),
    ) {
        (Some(a), Some(b)) => Some((a, b)),
        _ => None,
    }
}

fn level(entry: &Dec, pips: Option<Dec>, pip: &Dec, below: bool) -> (r: Option<Option<Dec>>)
    requires
        entry.wf(),
        opt_wf(pips),
        pip.wf(),
    ensures
        match r {
            Some(o) => level_spec(entry@, opt_v(pips), pip@, below) == Some(opt_v(o)) && opt_wf(o),
            None => level_spec(entry@, opt_v(pips), pip@, below) is None,
        },
{
    match pips {
        None => Some(None),
        Some(p) => {
            let d = p.mul(pip)?;
            let v = if below {
                entry.sub(&d)?
            } else {
                entry.add(&d)?
            };
            Some(Some(v.round_dp(6)))
        },
    }
}

/// Converts the strategy's stop and target (in pips or points) to prices.
pub fn levels(strategy: &Strategy, side: Side, entry: &Dec) -> (r: Option<(Option<Dec>, Option<Dec>)>)
    requires
        strategy.wf(),
        entry.wf(),
    ensures
        match r {
            Some((a, b)) => levels_spec(*strategy, side, entry@) == Some((opt_v(a), opt_v(b))) && opt_wf(a)
                && opt_wf(b),
            None => levels_spec(*strategy, side, entry@) is None,
        },
{
    let pip = match strategy.asset_class {
        AssetClass::Forex => Dec::new(1, 4),
        AssetClass::DerivIndex => Dec::one(),
    };
    let a = level(entry, strategy.stop_loss, &pip, side == Side::Buy);
    let b = level(entry, strategy.take_profit, &pip, side != Side::Buy);
    match (a, b) {
        (Some(a), Some(b)) => Some((a, b)),
        _ => None,
    }
}

/// Units to trade: risking `balance * risk` over the stop distance when
/// there is a usable stop (not the entry, not zero), otherwise 1% of the
/// balance at the entry price; 6 decimals.  `None` on overflow or a zero
/// divisor.
pub open spec fn size_spec(balance: DecV, risk: DecV, entry: DecV, stop: Option<DecV>) -> Option<DecV> {
    match decimal_checked_mul(balance, risk) {
        None => None,
        Some(risk_amount) => {
            let usable = match stop {
                Some(s) => !dv_eq(s, entry) && !dv_eq(s, int_dv(0)),
                None => false,
            };
            if usable {
                match decimal_checked_sub(entry, stop.unwrap()) {
                    None => None,
                    Some(d) => if dv_eq(abs_v(d), int_dv(0)) {
                        Some(int_dv(0))
                    } else {
                        match decimal_checked_div(risk_amount, abs_v(d)) {
                            None => None,
                            Some(q) => Some(round_dp_spec(q, 6)),
                        }
                    },
                }
            } else {
                match decimal_checked_mul(balance, scaled_dv(1, 2)) {
                    None => None,
                    Some(m) => match decimal_checked_div(m, entry) {
                        None => None,
                        Some(q) => Some(round_dp_spec(q, 6)),
                    },
                }
            }
        },
    }
}

/// Position size for a balance, risk fraction, entry and optional stop.
pub fn position_size(balance: &Dec, risk_per_trade: &Dec, entry: &Dec, stop: Option<Dec>) -> (r: Option<Dec>)
    requires
        balance.wf(),
        risk_per_trade.wf(),
        entry.wf(),
        opt_wf(stop),
    ensures
        opt_v(r) == size_spec(balance@, risk_per_trade@, entry@, opt_v(stop)),
        r matches Some(x) ==> x.wf(),
{
    let risk_amount = balance.mul(risk_per_trade)?;
    let usable = match stop {
        Some(s) => !s.eq(entry) && !s.eq(&Dec::zero()),
        None => false,
    };
    if usable {
        let s = stop.unwrap();
        let d = entry.sub(&s)?;
        let per_unit = d.abs();
        if per_unit.eq(&Dec::zero()) {
            return Some(Dec::zero());
        }
        let q = risk_amount.div(&per_unit)?;
        Some(q.round_dp(6))
    } else {
        let m = balance.mul(&Dec::new(1, 2))?;
        let q = m.div(entry)?;
        Some(q.round_dp(6))
    }
}

// ---------------------------------------------------------------------------
// Simulation.
// ---------------------------------------------------------------------------
pub struct TradeV {
    pub side: Side,
    pub entry_ts: int,
    pub entry_price: DecV,
    pub exit_ts: int,
    pub exit_price: DecV,
    pub pnl: DecV,
    pub exit_reason: Seq<char>,
    pub strength: DecV,
}

impl View for BacktestTrade {
    type V = TradeV;

    open spec fn view(&self) -> TradeV {
        TradeV {
            side: self.side,
            entry_ts: self.entry_ts as int,
            entry_price: self.entry_price@,
            exit_ts: self.exit_ts as int,
            exit_price: self.exit_price@,
            pnl: self.pnl@,
            exit_reason: self.exit_reason@,
            strength: self.strength@,
        }
    }
}

/// The simulation between bars.
pub struct SimState {
    pub equity: DecV,
    pub peak: DecV,
    pub max_dd: DecV,
    pub pos: Option<PosV>,
    pub trades: Seq<TradeV>,
    pub curve: Seq<(int, DecV)>,
}

pub open spec fn closed_trade(pos: PosV, exit_ts: int, exit: DecV, pnl: DecV, reason: Seq<char>) -> TradeV {
    TradeV {
        side: pos.side,
        entry_ts: pos.entry_ts,
        entry_price: pos.entry_price,
        exit_ts,
        exit_price: exit,
        pnl,
        exit_reason: reason,
        strength: pos.strength,
    }
}

/// First step of a bar: close the open position when the bar hits a level.
pub open spec fn manage_spec(st: SimState, bar: Candle) -> Option<SimState> {
    match st.pos {
        None => Some(st),
        Some(pos) => match exit_spec(pos, bar) {
            None => Some(st),
            Some((exit, reason)) => match pnl_spec(pos, exit) {
                None => None,
                Some(pnl) => match decimal_checked_add(st.equity, pnl) {
                    None => None,
                    Some(eq) => Some(
                        SimState {
                            equity: eq,
                            peak: st.peak,
                            max_dd: st.max_dd,
                            pos: None,
                            trades: st.trades.push(closed_trade(pos, bar.ts as int, exit, pnl, reason)),
                            curve: st.curve,
                        },
                    ),
                },
            },
        },
    }
}

/// A signal for `side` closes an open position of the other side at the
/// bar's close ("opposite_signal").
pub open spec fn reverse_spec(st: SimState, bar: Candle, side: Side) -> Option<SimState> {
    match st.pos {
        Some(pos) => if pos.side != side {
            match pnl_spec(pos, bar.close@) {
                None => None,
                Some(pnl) => match decimal_checked_add(st.equity, pnl) {
                    None => None,
                    Some(eq) => Some(
                        SimState {
                            equity: eq,
                            peak: st.peak,
                            max_dd: st.max_dd,
                            pos: None,
                            trades: st.trades.push(
                                closed_trade(pos, bar.ts as int, bar.close@, pnl, "opposite_signal"@),
                            ),
                            curve: st.curve,
                        },
                    ),
                },
            }
        } else {
            Some(st)
        },
        None => Some(st),
    }
}

/// With no open position, a signal opens one at the bar's close, sized on
/// the current equity.
pub open spec fn open_spec(st: SimState, bar: Candle, s: Strategy, side: Side, price: DecV, strength: DecV) -> Option<
    SimState,
> {
    if st.pos is Some {
        Some(st)
    } else {
        match levels_spec(s, side, price) {
            None => None,
            Some((stop, tp)) => match size_spec(st.equity, s.risk_per_trade@, bar.close@, stop) {
                None => None,
                Some(size) => Some(
                    SimState {
                        equity: st.equity,
                        peak: st.peak,
                        max_dd: st.max_dd,
                        pos: Some(
                            PosV {
                                side,
                                entry_ts: bar.ts as int,
                                entry_price: bar.close@,
                                stop,
                                take_profit: tp,
                                strength,
                                size,
                            },
                        ),
                        trades: st.trades,
                        curve: st.curve,
                    },
                ),
            },
        }
    }
}

/// Second step: the rules are evaluated at the bar's close; a signal of
/// positive strength first closes an open position of the other side, then,
/// with no position open, opens one on its side.
pub open spec fn entry_spec(st: SimState, bar: Candle, reading: BarReading, s: Strategy, rules: Seq<Rule>) -> Option<
    SimState,
> {
    match signal_spec(rules, reading.fired@, reading.indicators) {
        Err(_) => None,
        Ok(None) => Some(st),
        Ok(Some((side, price, strength, _))) => if !dv_lt(int_dv(0), strength) {
            Some(st)
        } else {
            match reverse_spec(st, bar, side) {
                None => None,
                Some(a) => open_spec(a, bar, s, side, price, strength),
            }
        },
    }
}

/// Drawdown from the peak in percent, 4 decimals (zero without a positive
/// peak).
pub open spec fn drawdown_spec(peak: DecV, mark: DecV) -> Option<DecV> {
    if dv_lt(int_dv(0), peak) {
        match decimal_checked_sub(peak, mark) {
            None => None,
            Some(d) => match decimal_checked_div(d, peak) {
                None => None,
                Some(q) => match decimal_checked_mul(q, int_dv(100)) {
                    None => None,
                    Some(m) => Some(round_dp_spec(m, 4)),
                },
            },
        }
    } else {
        Some(int_dv(0))
    }
}

/// Third step: mark equity (with the open position's unrealised profit) to
/// the bar's close, extend the curve and track peak and maximum drawdown.
pub open spec fn mark_spec(st: SimState, bar: Candle) -> Option<SimState> {
    let unreal = match st.pos {
        Some(p) => pnl_spec(p, bar.close@),
        None => Some(int_dv(0)),
    };
    match unreal {
        None => None,
        Some(u) => match decimal_checked_add(st.equity, u) {
            None => None,
            Some(e) => {
                let mark = round_dp_spec(e, 6);
                let peak = if dv_lt(st.peak, mark) {
                    mark
                } else {
                    st.peak
                };
                match drawdown_spec(peak, mark) {
                    None => None,
                    Some(dd) => Some(
                        SimState {
                            equity: st.equity,
                            peak,
                            max_dd: if dv_lt(st.max_dd, dd) {
                                dd
                            } else {
                                st.max_dd
                            },
                            pos: st.pos,
                            trades: st.trades,
                            curve: st.curve.push((bar.ts as int, mark)),
                        },
                    ),
                }
            },
        },
    }
}

pub open spec fn bar_spec(st: SimState, bar: Candle, reading: BarReading, s: Strategy, rules: Seq<Rule>) -> Option<
    SimState,
> {
    match manage_spec(st, bar) {
        None => None,
        Some(a) => match entry_spec(a, bar, reading, s, rules) {
            None => None,
            Some(b) => mark_spec(b, bar),
        },
    }
}

pub open spec fn initial_balance() -> DecV {
    int_dv(10000)
}

pub open spec fn start_state() -> SimState {
    SimState {
        equity: initial_balance(),
        peak: initial_balance(),
        max_dd: int_dv(0),
        pos: None,
        trades: Seq::empty(),
        curve: Seq::empty(),
    }
}

/// The state after the first `k` bars past the warm-up.
pub open spec fn run_bars(
    candles: Seq<Candle>,
    readings: Seq<BarReading>,
    s: Strategy,
    rules: Seq<Rule>,
    k: nat,
) -> Option<SimState>
    decreases k,
{
    if k == 0 {
        Some(start_state())
    } else {
        match run_bars(candles, readings, s, rules, (k - 1) as nat) {
            None => None,
            Some(st) => bar_spec(st, candles[WARMUP + k - 1], readings[k - 1], s, rules),
        }
    }
}

/// Equity and trades once a position still open is closed at the last close.
pub open spec fn finish_spec(st: SimState, last: Candle) -> Option<(DecV, Seq<TradeV>)> {
    match st.pos {
        None => Some((st.equity, st.trades)),
        Some(p) => match pnl_spec(p, last.close@) {
            None => None,
            Some(pnl) => match decimal_checked_add(st.equity, pnl) {
                None => None,
                Some(eq) => Some(
                    (eq, st.trades.push(closed_trade(p, last.ts as int, last.close@, pnl, "end_of_data"@))),
                ),
            },
        },
    }
}

/// Trades closed with a profit.
pub open spec fn win_count(t: Seq<TradeV>) -> nat
    decreases t.len(),
{
    if t.len() == 0 {
        0
    } else {
        win_count(t.drop_last()) + (if dv_lt(int_dv(0), t.last().pnl) {
            1nat
        } else {
            0nat
        })
    }
}

/// Trades closed without a profit.
pub open spec fn loss_count(t: Seq<TradeV>) -> nat
    decreases t.len(),
{
    if t.len() == 0 {
        0
    } else {
        loss_count(t.drop_last()) + (if dv_le(t.last().pnl, int_dv(0)) {
            1nat
        } else {
            0nat
        })
    }
}

/// What the backtest reports for a finished simulation (`None` on
/// arithmetic failure): final equity, trades, wins, losses, win rate,
/// total and average profit and total return in percent (2 decimals).
pub open spec fn stats_spec(eq: DecV, trades: Seq<TradeV>) -> Option<(DecV, DecV, DecV, DecV)> {
    let closed = trades.len();
    match decimal_checked_sub(eq, initial_balance()) {
        None => None,
        Some(total) => {
            let win_rate = if closed > 0 {
                decimal_checked_div(int_dv(win_count(trades) as int), int_dv(closed as int))
            } else {
                Some(int_dv(0))
            };
            let avg = if closed > 0 {
                decimal_checked_div(total, int_dv(closed as int))
            } else {
                Some(int_dv(0))
            };
            let ret = match decimal_checked_div(total, initial_balance()) {
                None => None,
                Some(q) => match decimal_checked_mul(q, int_dv(100)) {
                    None => None,
                    Some(m) => Some(round_dp_spec(m, 2)),
                },
            };
            match (win_rate, avg, ret) {
                (Some(w), Some(a), Some(r)) => Some((total, w, a, r)),
                _ => None,
            }
        },
    }
}

/// The backtest can run to the end without arithmetic failure.
pub open spec fn backtest_defined(candles: Seq<Candle>, readings: Seq<BarReading>, s: Strategy, rules: Seq<Rule>) -> bool {
    match run_bars(candles, readings, s, rules, (candles.len() - WARMUP) as nat) {
        None => false,
        Some(st) => match finish_spec(st, candles.last()) {
            None => false,
            Some((eq, trades)) => stats_spec(eq, trades) is Some,
        },
    }
}

pub open spec fn trade_views(t: Seq<BacktestTrade>) -> Seq<TradeV> {
    t.map_values(|x: BacktestTrade| x@)
}

pub open spec fn curve_views(c: Seq<EquityPoint>) -> Seq<(int, DecV)> {
    c.map_values(|p: EquityPoint| (p.ts as int, p.equity@))
}

/// The strategy's first symbol, else the first candle's, else empty.
pub open spec fn result_symbol(s: Strategy, candles: Seq<Candle>) -> Seq<char> {
    if s.symbols@.len() > 0 {
        s.symbols@[0]@
    } else if candles.len() > 0 {
        candles[0].symbol@
    } else {
        Seq::empty()
    }
}

/// The result is the replay's.
pub open spec fn result_of(
    r: BacktestResult,
    candles: Seq<Candle>,
    readings: Seq<BarReading>,
    s: Strategy,
    rules: Seq<Rule>,
) -> bool {
    match run_bars(candles, readings, s, rules, (candles.len() - WARMUP) as nat) {
        None => false,
        Some(st) => match finish_spec(st, candles.last()) {
            None => false,
            Some((eq, trades)) => match stats_spec(eq, trades) {
                None => false,
                Some((total, win_rate, avg, ret)) => {
                    &&& r.symbol@ == result_symbol(s, candles)
                    &&& r.initial_balance@ == initial_balance()
                    &&& r.final_equity@ == eq
                    &&& r.total_return_pct@ == ret
                    &&& trade_views(r.trades@) == trades
                    &&& r.closed_trades == trades.len()
                    &&& r.winning_trades == win_count(trades)
                    &&& r.losing_trades == loss_count(trades)
                    &&& r.win_rate@ == win_rate
                    &&& r.total_pnl@ == total
                    &&& r.avg_pnl@ == avg
                    &&& r.max_drawdown_pct@ == st.max_dd
                    &&& curve_views(r.equity_curve@) == st.curve
                },
            },
        },
    }
}

// ---------------------------------------------------------------------------
// Exec simulation.
// ---------------------------------------------------------------------------
struct Sim {
    equity: Dec,
    peak: Dec,
    max_dd: Dec,
    pos: Option<OpenPos>,
    trades: Vec<BacktestTrade>,
    curve: Vec<EquityPoint>,
}

pub open spec fn pos_view(p: Option<OpenPos>) -> Option<PosV> {
    match p {
        Some(x) => Some(x@),
        None => None,
    }
}

impl Sim {
    spec fn wf(&self) -> bool {
        &&& self.equity.wf()
        &&& self.peak.wf()
        &&& self.max_dd.wf()
        &&& (self.pos matches Some(p) ==> p.wf())
        &&& forall|i: int| 0 <= i < self.trades@.len() ==> (#[trigger] self.trades@[i]).pnl.wf()
    }

    spec fn state(&self) -> SimState {
        SimState {
            equity: self.equity@,
            peak: self.peak@,
            max_dd: self.max_dd@,
            pos: pos_view(self.pos),
            trades: trade_views(self.trades@),
            curve: curve_views(self.curve@),
        }
    }
}

fn close_trade(pos: &OpenPos, exit_ts: i64, exit: Dec, pnl: Dec, reason: String) -> (r: BacktestTrade)
    ensures
        r@ == closed_trade(pos@, exit_ts as int, exit@, pnl@, reason@),
        r.pnl == pnl,
{
    BacktestTrade {
        side: pos.side,
        entry_ts: pos.entry_ts,
        entry_price: pos.entry_price,
        exit_ts,
        exit_price: exit,
        pnl,
        exit_reason: reason,
        strength: pos.strength,
    }
}

fn manage(sim: Sim, bar: &Candle) -> (r: Option<Sim>)
    requires
        sim.wf(),
        bar.wf(),
    ensures
        match r {
            Some(x) => manage_spec(sim.state(), *bar) == Some(x.state()) && x.wf(),
            None => manage_spec(sim.state(), *bar) is None,
        },
{
    let pos = match sim.pos {
        None => {
            return Some(sim);
        },
        Some(p) => p,
    };
    let (exit, reason) = match check_exit(&pos, bar) {
        None => {
            return Some(sim);
        },
        Some(x) => x,
    };
    let pnl = pos.pnl(&exit)?;
    let eq = sim.equity.add(&pnl)?;
    let mut sim = sim;
    let ghost before = trade_views(sim.trades@);
    let t = close_trade(&pos, bar.ts, exit, pnl, reason);
    sim.trades.push(t);
    assert(trade_views(sim.trades@) =~= before.push(t@));
    sim.equity = eq;
    sim.pos = None;
    Some(sim)
}

fn reverse(sim: Sim, bar: &Candle, side: Side) -> (r: Option<Sim>)
    requires
        sim.wf(),
        bar.wf(),
    ensures
        match r {
            Some(x) => reverse_spec(sim.state(), *bar, side) == Some(x.state()) && x.wf(),
            None => reverse_spec(sim.state(), *bar, side) is None,
        },
{
    let pos = match sim.pos {
        None => {
            return Some(sim);
        },
        Some(p) => p,
    };
    if pos.side == side {
        return Some(sim);
    }
    let pnl = pos.pnl(&bar.close)?;
    let eq = sim.equity.add(&pnl)?;
    let mut sim = sim;
    let ghost before = trade_views(sim.trades@);
    proof {
        reveal_strlit("opposite_signal");
    }
    let t = close_trade(&pos, bar.ts, bar.close, pnl, String::from_str("opposite_signal"));
    sim.trades.push(t);
    assert(trade_views(sim.trades@) =~= before.push(t@));
    sim.equity = eq;
    sim.pos = None;
    Some(sim)
}

fn enter(sim: Sim, bar: &Candle, reading: &BarReading, strategy: &Strategy, rules: &Vec<Rule>) -> (r: Option<Sim>)
    requires
        sim.wf(),
        bar.wf(),
        reading.indicators.wf(),
        strategy.wf(),
        rules_weights_wf(rules@),
    ensures
        match r {
            Some(x) => entry_spec(sim.state(), *bar, *reading, *strategy, rules@) == Some(x.state()) && x.wf(),
            None => entry_spec(sim.state(), *bar, *reading, *strategy, rules@) is None,
        },
{
    let sig = match evaluate_at(rules, &reading.fired, &reading.indicators) {
        Err(_) => {
            return None;
        },
        Ok(None) => {
            return Some(sim);
        },
        Ok(Some(s)) => s,
    };
    if !Dec::zero().lt(&sig.strength) {
        return Some(sim);
    }
    let sim = reverse(sim, bar, sig.side)?;
    if sim.pos.is_some() {
        return Some(sim);
    }
    let (stop, tp) = levels(strategy, sig.side, &sig.price)?;
    let size = position_size(&sim.equity, &strategy.risk_per_trade, &bar.close, stop)?;
    let mut sim = sim;
    sim.pos = Some(
        OpenPos {
            side: sig.side,
            entry_ts: bar.ts,
            entry_price: bar.close,
            stop,
            take_profit: tp,
            strength: sig.strength,
            size,
        },
    );
    Some(sim)
}

fn drawdown(peak: &Dec, mark: &Dec) -> (r: Option<Dec>)
    requires
        peak.wf(),
        mark.wf(),
    ensures
        opt_v(r) == drawdown_spec(peak@, mark@),
        r matches Some(x) ==> x.wf(),
{
    if Dec::zero().lt(peak) {
        let d = peak.sub(mark)?;
        let q = d.div(peak)?;
        let m = q.mul(&Dec::from_i64(100))?;
        Some(m.round_dp(4))
    } else {
        Some(Dec::zero())
    }
}

fn mark(sim: Sim, bar: &Candle) -> (r: Option<Sim>)
    requires
        sim.wf(),
        bar.wf(),
    ensures
        match r {
            Some(x) => mark_spec(sim.state(), *bar) == Some(x.state()) && x.wf(),
            None => mark_spec(sim.state(), *bar) is None,
        },
{
    let u = match sim.pos {
        Some(p) => p.unrealized(&bar.close)?,
        None => Dec::zero(),
    };
    let e = sim.equity.add(&u)?;
    let m = e.round_dp(6);
    let peak = if sim.peak.lt(&m) {
        m
    } else {
        sim.peak
    };
    let dd = drawdown(&peak, &m)?;
    let mut sim = sim;
    let ghost before = curve_views(sim.curve@);
    sim.curve.push(EquityPoint { ts: bar.ts, equity: m });
    assert(curve_views(sim.curve@) =~= before.push((bar.ts as int, m@)));
    sim.peak = peak;
    if sim.max_dd.lt(&dd) {
        sim.max_dd = dd;
    }
    Some(sim)
}

fn bar_step(sim: Sim, bar: &Candle, reading: &BarReading, strategy: &Strategy, rules: &Vec<Rule>) -> (r: Option<Sim>)
    requires
        sim.wf(),
        bar.wf(),
        reading.indicators.wf(),
        strategy.wf(),
        rules_weights_wf(rules@),
    ensures
        match r {
            Some(x) => bar_spec(sim.state(), *bar, *reading, *strategy, rules@) == Some(x.state()) && x.wf(),
            None => bar_spec(sim.state(), *bar, *reading, *strategy, rules@) is None,
        },
{
    let a = manage(sim, bar)?;
    let b = enter(a, bar, reading, strategy, rules)?;
    mark(b, bar)
}

proof fn lemma_run_none(candles: Seq<Candle>, readings: Seq<BarReading>, s: Strategy, rules: Seq<Rule>, k: nat, n: nat)
    requires
        k <= n,
        run_bars(candles, readings, s, rules, k) is None,
    ensures
        run_bars(candles, readings, s, rules, n) is None,
    decreases n - k,
{
    if k < n {
        lemma_run_none(candles, readings, s, rules, k + 1, n);
    }
}

pub open spec fn readings_wf(r: Seq<BarReading>) -> bool {
    forall|i: int| 0 <= i < r.len() ==> (#[trigger] r[i]).indicators.wf()
}

fn count_outcomes(trades: &Vec<BacktestTrade>) -> (r: (usize, usize))
    requires
        forall|i: int| 0 <= i < trades@.len() ==> (#[trigger] trades@[i]).pnl.wf(),
    ensures
        r.0 as nat == win_count(trade_views(trades@)),
        r.1 as nat == loss_count(trade_views(trades@)),
        r.0 <= trades.len(),
        r.1 <= trades.len(),
{
    let mut w: usize = 0;
    let mut l: usize = 0;
    let mut i: usize = 0;
    let zero = Dec::zero();
    while i < trades.len()
        invariant
            i <= trades.len(),
            forall|j: int| 0 <= j < trades@.len() ==> (#[trigger] trades@[j]).pnl.wf(),
            zero@ == int_dv(0),
            w <= i,
            l <= i,
            w as nat == win_count(trade_views(trades@.take(i as int))),
            l as nat == loss_count(trade_views(trades@.take(i as int))),
        decreases trades.len() - i,
    {
        assert(trade_views(trades@.take(i + 1)).drop_last() =~= trade_views(trades@.take(i as int)));
        assert(trade_views(trades@.take(i + 1)).last() == trades@[i as int]@);
        assert(trades@[i as int].pnl.wf());
        if zero.lt(&trades[i].pnl) {
            w = w + 1;
        }
        if trades[i].pnl.le(&zero) {
            l = l + 1;
        }
        i = i + 1;
    }
    assert(trades@.take(trades.len() as int) =~= trades@);
    (w, l)
}

/// Replays the candles through the strategy's rules; `readings[k]` is the
/// engine's view of bar `WARMUP + k`.
pub fn run(strategy: &Strategy, rules: &Vec<Rule>, candles: &Vec<Candle>, readings: &Vec<BarReading>) -> (r: Result<
    BacktestResult,
    BacktestError,
>)
    requires
        strategy.wf(),
        rules_weights_wf(rules@),
        candles_wf(candles@),
        readings_wf(readings@),
        candles.len() >= WARMUP ==> readings.len() == candles.len() - WARMUP,
    ensures
        candles.len() < WARMUP ==> r == Err::<BacktestResult, BacktestError>(
            BacktestError::NotEnoughCandles(candles.len()),
        ),
        candles.len() >= WARMUP ==> match r {
            Ok(res) => result_of(res, candles@, readings@, *strategy, rules@),
            Err(e) => e == BacktestError::Arithmetic && !backtest_defined(candles@, readings@, *strategy, rules@),
        },
        r matches Ok(res) ==> res.sharpe_ratio@ == int_dv(0) && decs_wf(trade_pnls(res.trades@)),
{
    let n = candles.len();
    if n < WARMUP {
        return Err(BacktestError::NotEnoughCandles(n));
    }
    let symbol = if strategy.symbols.len() > 0 {
        strategy.symbols[0].clone()
    } else {
        candles[0].symbol.clone()
    };
    let initial = Dec::from_i64(10000);
    let mut sim = Sim {
        equity: initial,
        peak: initial,
        max_dd: Dec::zero(),
        pos: None,
        trades: Vec::new(),
        curve: Vec::new(),
    };
    assert(sim.state().trades =~= Seq::<TradeV>::empty());
    assert(sim.state().curve =~= Seq::<(int, DecV)>::empty());
    let mut i: usize = WARMUP;
    while i < n
        invariant
            n == candles@.len(),
            WARMUP <= i <= n,
            readings@.len() == n - WARMUP,
            strategy.wf(),
            rules_weights_wf(rules@),
            candles_wf(candles@),
            readings_wf(readings@),
            sim.wf(),
            run_bars(candles@, readings@, *strategy, rules@, (i - WARMUP) as nat) == Some(sim.state()),
        decreases n - i,
    {
        assert(candles@[i as int].wf());
        assert(readings@[i - WARMUP].indicators.wf());
        sim = match bar_step(sim, &candles[i], &readings[i - WARMUP], strategy, rules) {
            Some(s2) => s2,
            None => {
                proof {
                    lemma_run_none(candles@, readings@, *strategy, rules@, (i + 1 - WARMUP) as nat, (n - WARMUP) as nat);
                }
                return Err(BacktestError::Arithmetic);
            },
        };
        i = i + 1;
    }
    let last = &candles[n - 1];
    assert(candles@.last().wf());
    let mut equity = sim.equity;
    let mut trades = sim.trades;
    if let Some(pos) = sim.pos {
        let pnl = match pos.pnl(&last.close) {
            Some(p) => p,
            None => {
                return Err(BacktestError::Arithmetic);
            },
        };
        equity = match equity.add(&pnl) {
            Some(e) => e,
            None => {
                return Err(BacktestError::Arithmetic);
            },
        };
        let ghost before = trade_views(trades@);
        let t = close_trade(&pos, last.ts, last.close, pnl, String::from_str("end_of_data"));
        let ghost tr0 = trades@;
        trades.push(t);
        assert(trade_views(trades@) =~= before.push(t@));
        assert(forall|i: int| 0 <= i < tr0.len() ==> trades@[i] == tr0[i]);
    }
    assert(decs_wf(trade_pnls(trades@)));
    let closed = trades.len();
    let (wins, losses) = count_outcomes(&trades);
    let total = match equity.sub(&initial) {
        Some(t) => t,
        None => {
            return Err(BacktestError::Arithmetic);
        },
    };
    let win_rate = if closed > 0 {
        Dec::from_u64(wins as u64).div(&Dec::from_u64(closed as u64))
    } else {
        Some(Dec::zero())
    };
    let avg = if closed > 0 {
        total.div(&Dec::from_u64(closed as u64))
    } else {
        Some(Dec::zero())
    };
    let ret = match total.div(&initial) {
        None => None,
        Some(q) => match q.mul(&Dec::from_i64(100)) {
            None => None,
            Some(m) => Some(m.round_dp(2)),
        },
    };
    let (win_rate, avg, ret) = match (win_rate, avg, ret) {
        (Some(w), Some(a), Some(r)) => (w, a, r),
        _ => {
            return Err(BacktestError::Arithmetic);
        },
    };
    Ok(
        BacktestResult {
            symbol,
            initial_balance: initial,
            final_equity: equity,
            total_return_pct: ret,
            trades,
            closed_trades: closed,
            winning_trades: wins,
            losing_trades: losses,
            win_rate,
            total_pnl: total,
            avg_pnl: avg,
            max_drawdown_pct: sim.max_dd,
            sharpe_ratio: Dec::zero(),
            equity_curve: sim.curve,
        },
    )
}

// ---------------------------------------------------------------------------
// Return statistics.
// ---------------------------------------------------------------------------
/// Sum of the returns, added in order.
pub open spec fn sum_spec(s: Seq<Dec>) -> Option<DecV>
    decreases s.len(),
{
    if s.len() == 0 {
        Some(int_dv(0))
    } else {
        match sum_spec(s.drop_last()) {
            None => None,
            Some(a) => decimal_checked_add(a, s.last()@),
        }
    }
}

/// Sum of the squared deviations from `mean`, added in order.
pub open spec fn sq_dev_spec(s: Seq<Dec>, mean: DecV) -> Option<DecV>
    decreases s.len(),
{
    if s.len() == 0 {
        Some(int_dv(0))
    } else {
        match sq_dev_spec(s.drop_last(), mean) {
            None => None,
            Some(a) => match decimal_checked_sub(s.last()@, mean) {
                None => None,
                Some(d) => match decimal_checked_mul(d, d) {
                    None => None,
                    Some(q) => decimal_checked_add(a, q),
                },
            },
        }
    }
}

/// Mean and (population) variance of the returns, for the Sharpe ratio;
/// `Some(None)` with fewer than two returns, `None` on arithmetic failure.
pub open spec fn moments_spec(s: Seq<Dec>) -> Option<Option<(DecV, DecV)>> {
    if s.len() < 2 {
        Some(None)
    } else {
        match sum_spec(s) {
            None => None,
            Some(total) => match decimal_checked_div(total, int_dv(s.len() as int)) {
                None => None,
                Some(mean) => match sq_dev_spec(s, mean) {
                    None => None,
                    Some(sq) => match decimal_checked_div(sq, int_dv(s.len() as int)) {
                        None => None,
                        Some(var) => Some(Some((mean, var))),
                    },
                },
            },
        }
    }
}

/// The trades' profits, in order.
pub open spec fn trade_pnls(t: Seq<BacktestTrade>) -> Seq<Dec> {
    t.map_values(|x: BacktestTrade| x.pnl)
}

/// The Sharpe ratio of the profits for a given standard deviation: zero
/// with fewer than two trades, as `sharpe_from_moments` otherwise (`None`
/// on arithmetic failure).
pub open spec fn sharpe_spec(pnls: Seq<Dec>, std_dev: DecV) -> Option<DecV> {
    match moments_spec(pnls) {
        None => None,
        Some(None) => Some(int_dv(0)),
        Some(Some((mean, var))) => if dv_is_zero(var) || dv_is_zero(std_dev) {
            Some(int_dv(0))
        } else {
            decimal_checked_div(mean, std_dev)
        },
    }
}

/// The trades' profits and their mean and variance (`None` on arithmetic
/// failure, `Some(None)` with fewer than two trades); the caller takes the
/// variance's square root for `with_sharpe`.
pub fn result_moments(r: &BacktestResult) -> (m: Option<Option<(Dec, Dec)>>)
    requires
        decs_wf(trade_pnls(r.trades@)),
    ensures
        match m {
            None => moments_spec(trade_pnls(r.trades@)) is None,
            Some(None) => moments_spec(trade_pnls(r.trades@)) == Some(None::<(DecV, DecV)>),
            Some(Some((a, v))) => moments_spec(trade_pnls(r.trades@)) == Some(Some((a@, v@))) && a.wf() && v.wf(),
        },
{
    let pnls = profits(&r.trades);
    return_moments(&pnls)
}

fn profits(t: &Vec<BacktestTrade>) -> (r: Vec<Dec>)
    ensures
        r@ == trade_pnls(t@),
{
    let mut r: Vec<Dec> = Vec::new();
    let mut i: usize = 0;
    while i < t.len()
        invariant
            i <= t@.len(),
            r@ == trade_pnls(t@).take(i as int),
        decreases t.len() - i,
    {
        r.push(t[i].pnl);
        assert(r@ =~= trade_pnls(t@).take(i + 1));
        i = i + 1;
    }
    assert(trade_pnls(t@).take(t@.len() as int) =~= trade_pnls(t@));
    r
}

/// The result with its Sharpe ratio filled in from the standard deviation
/// of the profits; every other field is kept.  `None` on arithmetic
/// failure.
pub fn with_sharpe(r: BacktestResult, std_dev: &Dec) -> (out: Option<BacktestResult>)
    requires
        decs_wf(trade_pnls(r.trades@)),
        std_dev.wf(),
    ensures
        match sharpe_spec(trade_pnls(r.trades@), std_dev@) {
            None => out is None,
            Some(x) => out matches Some(o) && {
                &&& o.sharpe_ratio@ == x
                &&& o.symbol == r.symbol
                &&& o.initial_balance == r.initial_balance
                &&& o.final_equity == r.final_equity
                &&& o.total_return_pct == r.total_return_pct
                &&& o.trades == r.trades
                &&& o.closed_trades == r.closed_trades
                &&& o.winning_trades == r.winning_trades
                &&& o.losing_trades == r.losing_trades
                &&& o.win_rate == r.win_rate
                &&& o.total_pnl == r.total_pnl
                &&& o.avg_pnl == r.avg_pnl
                &&& o.max_drawdown_pct == r.max_drawdown_pct
                &&& o.equity_curve == r.equity_curve
            },
        },
{
    let s = match result_moments(&r) {
        None => {
            return None;
        },
        Some(None) => Dec::zero(),
        Some(Some((mean, var))) => match sharpe_from_moments(&mean, &var, std_dev) {
            Some(x) => x,
            None => {
                return None;
            },
        },
    };
    let mut o = r;
    o.sharpe_ratio = s;
    Some(o)
}

pub open spec fn decs_wf(s: Seq<Dec>) -> bool {
    forall|i: int| 0 <= i < s.len() ==> (#[trigger] s[i]).wf()
}

/// Mean and variance of per-trade returns.
pub fn return_moments(trade_returns: &Vec<Dec>) -> (r: Option<Option<(Dec, Dec)>>)
    requires
        decs_wf(trade_returns@),
    ensures
        match r {
            None => moments_spec(trade_returns@) is None,
            Some(None) => moments_spec(trade_returns@) == Some(None::<(DecV, DecV)>),
            Some(Some((m, v))) => moments_spec(trade_returns@) == Some(Some((m@, v@))) && m.wf() && v.wf(),
        },
{
    let n = trade_returns.len();
    if n < 2 {
        return Some(None);
    }
    let mut total = Dec::zero();
    let mut i: usize = 0;
    while i < n
        invariant
            n == trade_returns@.len(),
            n >= 2,
            i <= n,
            decs_wf(trade_returns@),
            total.wf(),
            sum_spec(trade_returns@.take(i as int)) == Some(total@),
        decreases n - i,
    {
        assert(trade_returns@.take(i + 1).drop_last() =~= trade_returns@.take(i as int));
        assert(trade_returns@[i as int].wf());
        total = match total.add(&trade_returns[i]) {
            Some(t) => t,
            None => {
                proof {
                    lemma_sum_none(trade_returns@, (i + 1) as nat, n as nat);
                    assert(trade_returns@.take(n as int) =~= trade_returns@);
                }
                return None;
            },
        };
        i = i + 1;
    }
    assert(trade_returns@.take(n as int) =~= trade_returns@);
    let count = Dec::from_u64(n as u64);
    let mean = match total.div(&count) {
        Some(m) => m,
        None => {
            return None;
        },
    };
    let mut sq = Dec::zero();
    let mut j: usize = 0;
    while j < n
        invariant
            n == trade_returns@.len(),
            n >= 2,
            j <= n,
            decs_wf(trade_returns@),
            sq.wf(),
            mean.wf(),
            count@ == int_dv(n as int),
            sum_spec(trade_returns@) == Some(total@),
            decimal_checked_div(total@, count@) == Some(mean@),
            sq_dev_spec(trade_returns@.take(j as int), mean@) == Some(sq@),
        decreases n - j,
    {
        assert(trade_returns@.take(j + 1).drop_last() =~= trade_returns@.take(j as int));
        assert(trade_returns@[j as int].wf());
        let step = match trade_returns[j].sub(&mean) {
            Some(d) => d.mul(&d),
            None => None,
        };
        let next = match step {
            Some(q) => sq.add(&q),
            None => None,
        };
        sq = match next {
            Some(x) => x,
            None => {
                proof {
                    lemma_sq_none(trade_returns@, mean@, (j + 1) as nat, n as nat);
                    assert(trade_returns@.take(n as int) =~= trade_returns@);
                }
                return None;
            },
        };
        j = j + 1;
    }
    assert(trade_returns@.take(n as int) =~= trade_returns@);
    match sq.div(&count) {
        Some(v) => Some(Some((mean, v))),
        None => None,
    }
}

/// The Sharpe ratio from the returns' mean and variance and the standard
/// deviation (the variance's square root, which the caller takes in
/// floating point): zero when the variance or the deviation is zero, else
/// the mean over the deviation (`None` when that quotient cannot be held).
pub fn sharpe_from_moments(mean: &Dec, var: &Dec, std_dev: &Dec) -> (r: Option<Dec>)
    requires
        mean.wf(),
        var.wf(),
        std_dev.wf(),
    ensures
        dv_is_zero(var@) || dv_is_zero(std_dev@) ==> (r matches Some(x) && x@ == int_dv(0)),
        !dv_is_zero(var@) && !dv_is_zero(std_dev@) ==> opt_view(r) == decimal_checked_div(mean@, std_dev@),
        r matches Some(x) ==> x.wf(),
{
    if var.is_zero() || std_dev.is_zero() {
        Some(Dec::zero())
    } else {
        mean.div(std_dev)
    }
}

proof fn lemma_sum_none(s: Seq<Dec>, k: nat, n: nat)
    requires
        k <= n <= s.len(),
        sum_spec(s.take(k as int)) is None,
    ensures
        sum_spec(s.take(n as int)) is None,
    decreases n - k,
{
    if k < n {
        assert(s.take(k + 1int).drop_last() =~= s.take(k as int));
        lemma_sum_none(s, k + 1, n);
    }
}

proof fn lemma_sq_none(s: Seq<Dec>, mean: DecV, k: nat, n: nat)
    requires
        k <= n <= s.len(),
        sq_dev_spec(s.take(k as int), mean) is None,
    ensures
        sq_dev_spec(s.take(n as int), mean) is None,
    decreases n - k,
{
    if k < n {
        assert(s.take(k + 1int).drop_last() =~= s.take(k as int));
        lemma_sq_none(s, mean, k + 1, n);
    }
}

} // verus!
