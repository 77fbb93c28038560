//! Requests from the UI: analysis, manual trades and backtests, and the
//! rules a manual trade follows (side, entry, stop, target, stake).
use crate::decimal::{decimal_checked_mul, decimal_text, dv_eq, dv_lt, dv_wf, exact_diff, exact_product, exact_sum, int_dv, scaled_dv, Dec, DecV};
use crate::decision::{pip_size, stops, stops_spec, Bias};
use crate::deriv::Quote;
use crate::domain::{AssetClass, Side, TradingMode};
use crate::reading::default_tf;
use crate::text::{starts_with, str_eq};
use vstd::prelude::*;

verus! {

/// Analysis request: symbol, chart timeframe in minutes (5 by default) and,
/// optionally, the asset class.
pub struct AnalyzeRequest {
    pub symbol: String,
    pub timeframe_minutes: u32,
    pub asset_class: Option<AssetClass>,
}

/// A manual trade in a confirmed direction.
pub struct TradeRequest {
    pub symbol: String,
    pub direction: String,
    pub timeframe_minutes: u32,
    pub stake: Option<Dec>,
    pub asset_class: Option<AssetClass>,
}

/// A backtest request.
pub struct BacktestRequest {
    pub symbol: String,
    pub initial_balance: Dec,
    pub candles: usize,
}

/// Default backtest balance: 10000.
pub fn default_balance() -> (r: Dec)
    ensures
        r.wf(),
        r@ == int_dv(10000),
{
    Dec::new(10000, 0)
}

/// Default number of backtest candles.
pub fn default_candles() -> (r: usize)
    ensures
        r == 1000,
{
    1000
}

/// The market a symbol trades on: the given class, else forex for "frx"
/// symbols and Deriv indices otherwise.
pub fn asset_class_for(symbol: &str, given: Option<AssetClass>) -> (r: AssetClass)
    ensures
        r == (match given {
            Some(c) => c,
            None => if "frx"@.is_prefix_of(symbol@) {
                AssetClass::Forex
            } else {
                AssetClass::DerivIndex
            },
        }),
{
    match given {
        Some(c) => c,
        None => if starts_with(symbol, "frx") {
            AssetClass::Forex
        } else {
            AssetClass::DerivIndex
        },
    }
}

/// A rejected trade request.
#[derive(Clone, Copy, Debug, PartialEq, Eq, Structural)]
pub enum TradeError {
    /// The direction is neither "buy" nor "sell".
    BadDirection,
    /// A price level or the stake cannot be represented.
    Overflow,
}

impl TradeError {
    /// The error as the API reports it.
    pub fn message(&self) -> (r: String)
        ensures
            r@ == match *self {
                TradeError::BadDirection => "direction must be 'buy' or 'sell'"@,
                TradeError::Overflow => "arithmetic overflow"@,
            },
    {
        match self {
            TradeError::BadDirection => String::from_str("direction must be 'buy' or 'sell'"),
            TradeError::Overflow => String::from_str("arithmetic overflow"),
        }
    }
}

/// "buy" or "sell"; anything else is rejected.
pub fn parse_direction(direction: &str) -> (r: Result<Side, TradeError>)
    ensures
        direction@ == "buy"@ ==> r == Ok::<Side, TradeError>(Side::Buy),
        direction@ == "sell"@ ==> r == Ok::<Side, TradeError>(Side::Sell),
        direction@ != "buy"@ && direction@ != "sell"@ ==> r == Err::<Side, TradeError>(TradeError::BadDirection),
{
    proof {
        reveal_strlit("buy");
        reveal_strlit("sell");
        assert("buy"@.len() == 3 && "sell"@.len() == 4);
    }
    if str_eq(direction, "buy") {
        Ok(Side::Buy)
    } else if str_eq(direction, "sell") {
        Ok(Side::Sell)
    } else {
        Err(TradeError::BadDirection)
    }
}

/// A buy fills at the ask, a sell at the bid.
pub fn entry_for(side: Side, quote: &Quote) -> (r: Dec)
    ensures
        r == (if side == Side::Buy {
            quote.ask
        } else {
            quote.bid
        }),
{
    match side {
        Side::Buy => quote.ask,
        Side::Sell => quote.bid,
    }
}

/// Stop distance max(ATR, 20 pips), target twice that, placed around the
/// entry for the side (`None` on overflow).
pub open spec fn trade_levels_spec(side: Side, entry: DecV, atr: DecV, symbol: Seq<char>) -> Option<(DecV, DecV)> {
    match decimal_checked_mul(pip_size(symbol), int_dv(20)) {
        None => None,
        Some(m) => {
            let sl = crate::decimal::max_v(atr, m);
            match decimal_checked_mul(sl, int_dv(2)) {
                None => None,
                Some(tp) => stops_spec(
                    if side == Side::Buy {
                        Bias::Buy
                    } else {
                        Bias::Sell
                    },
                    entry,
                    sl,
                    tp,
                ),
            }
        },
    }
}

/// The stop distance of a manual trade: the ATR, at least 20 pips.
pub open spec fn stop_distance(atr: DecV, symbol: Seq<char>) -> DecV {
    crate::decimal::max_v(atr, exact_product(pip_size(symbol), int_dv(20)))
}

/// The exact stop and target (entry minus or plus the stop distance, and
/// plus or minus twice it) can be represented.
pub open spec fn levels_fit(side: Side, entry: DecV, atr: DecV, symbol: Seq<char>) -> bool {
    let d = stop_distance(atr, symbol);
    let t = exact_product(d, int_dv(2));
    &&& dv_wf(t)
    &&& if side == Side::Buy {
        dv_wf(exact_diff(entry, d)) && dv_wf(exact_sum(entry, t))
    } else {
        dv_wf(exact_sum(entry, d)) && dv_wf(exact_diff(entry, t))
    }
}

/// The stop lies the stop distance from the entry on the losing side, the
/// target twice that distance on the winning side.
pub open spec fn levels_placed(side: Side, entry: DecV, atr: DecV, symbol: Seq<char>, sl: DecV, tp: DecV) -> bool {
    let d = stop_distance(atr, symbol);
    let t = exact_product(d, int_dv(2));
    if side == Side::Buy {
        dv_eq(sl, exact_diff(entry, d)) && dv_eq(tp, exact_sum(entry, t))
    } else {
        dv_eq(sl, exact_sum(entry, d)) && dv_eq(tp, exact_diff(entry, t))
    }
}

/// With the ATR used (the given one or the fallback), the levels lie as
/// `levels_placed` says whenever they can be represented exactly.
pub open spec fn placed_geometry(
    side: Side,
    entry: DecV,
    atr: Option<DecV>,
    symbol: Seq<char>,
    sl: DecV,
    tp: DecV,
) -> bool {
    match atr_or_fallback(entry, atr) {
        Some(a) => levels_fit(side, entry, a, symbol) ==> levels_placed(side, entry, a, symbol, sl, tp),
        None => true,
    }
}


/// Stop-loss and take-profit of a manual trade from the ATR(14).  When the
/// exact levels can be represented, the stop lies the stop distance
/// (max(ATR, 20 pips)) from the entry on the losing side and the target
/// twice that distance on the winning side.
pub fn trade_levels(side: Side, entry: &Dec, atr: &Dec, symbol: &str) -> (r: Option<(Dec, Dec)>)
    requires
        entry.wf(),
        atr.wf(),
    ensures
        match r {
            Some((a, b)) => trade_levels_spec(side, entry@, atr@, symbol@) == Some((a@, b@)),
            None => trade_levels_spec(side, entry@, atr@, symbol@) is None,
        },
        levels_fit(side, entry@, atr@, symbol@) ==> (r matches Some((a, b)) && levels_placed(
            side,
            entry@,
            atr@,
            symbol@,
            a@,
            b@,
        )),
        !dv_lt(stop_distance(atr@, symbol@), exact_product(pip_size(symbol@), int_dv(20))),
{
    let pip = if starts_with(symbol, "frx") {
        Dec::new(1, 4)
    } else {
        Dec::one()
    };
    let m = pip.mul(&Dec::from_i64(20))?;
    assert(m@ == exact_product(pip_size(symbol@), int_dv(20)));
    let sl = atr.max(m);
    proof {
        assert(sl@ == stop_distance(atr@, symbol@));
        if sl@ != m@ {
            crate::decimal::lemma_pow10_positive(atr@.2);
            crate::decimal::lemma_pow10_positive(m@.2);
            let p1 = crate::decimal::pow10(atr@.2);
            let p2 = crate::decimal::pow10(m@.2);
            let x = crate::decimal::dv_num(atr@);
            assert(20 * p1 <= x * p2);
            assert(x > 0) by (nonlinear_arith)
                requires
                    20 * p1 <= x * p2,
                    p1 >= 1,
                    p2 >= 1,
            ;
        }
        assert(sl@.1 != 0);
    }
    let tp = sl.mul(&Dec::from_i64(2))?;
    let dir = match side {
        Side::Buy => Bias::Buy,
        Side::Sell => Bias::Sell,
    };
    stops(dir, entry, &sl, &tp)
}

/// The stake: as requested, else 1% of the balance.
pub fn trade_stake(requested: Option<Dec>, balance: &Dec) -> (r: Option<Dec>)
    requires
        balance.wf(),
        requested matches Some(s) ==> s.wf(),
    ensures
        match requested {
            Some(s) => r == Some(s),
            None => match r {
                Some(x) => decimal_checked_mul(balance@, scaled_dv(1, 2)) == Some(x@),
                None => decimal_checked_mul(balance@, scaled_dv(1, 2)) is None,
            },
        },
{
    match requested {
        Some(s) => Some(s),
        None => balance.mul(&Dec::new(1, 2)),
    }
}

/// "Trade placed: {direction} {symbol} at {entry}".
pub fn trade_message(direction: &str, symbol: &str, entry: &Dec) -> (r: String)
    requires
        entry.wf(),
    ensures
        r@ == "Trade placed: "@ + direction@ + " "@ + symbol@ + " at "@ + decimal_text(entry@),
{
    let mut s = String::from_str("Trade placed: ");
    s.append(direction);
    s.append(" ");
    s.append(symbol);
    s.append(" at ");
    s.append(entry.to_text().as_str());
    s
}

/// An analysis request with the default timeframe.
pub fn analyze_request(symbol: String, asset_class: Option<AssetClass>) -> (r: AnalyzeRequest)
    ensures
        r.symbol == symbol,
        r.timeframe_minutes == 5,
        r.asset_class == asset_class,
{
    AnalyzeRequest { symbol, timeframe_minutes: default_tf(), asset_class }
}

/// The account a manual trade is placed on.
pub struct TradeAccount {
    pub id: String,
    pub balance: Dec,
    pub mode: TradingMode,
}

/// An open market trade to record.
pub struct NewTrade {
    pub account_id: String,
    /// No strategy: the nil UUID.
    pub strategy_id: String,
    pub symbol: String,
    pub side: Side,
    pub mode: TradingMode,
    pub size: Dec,
    pub entry_price: Dec,
    pub stop_loss: Dec,
    pub take_profit: Dec,
}

/// The nil UUID's text.
pub open spec fn nil_uuid() -> Seq<char> {
    "00000000-0000-0000-0000-000000000000"@
}

/// The side a direction names.
pub open spec fn direction_side(direction: Seq<char>) -> Option<Side> {
    if direction == "buy"@ {
        Some(Side::Buy)
    } else if direction == "sell"@ {
        Some(Side::Sell)
    } else {
        None
    }
}

/// The ATR to place the levels with: the given one, else half a percent of
/// the entry.
pub open spec fn atr_or_fallback(entry: DecV, atr: Option<DecV>) -> Option<DecV> {
    match atr {
        Some(a) => Some(a),
        None => decimal_checked_mul(entry, scaled_dv(5, 3)),
    }
}

/// The stake: the requested one, else 1% of the balance.
pub open spec fn stake_spec(requested: Option<DecV>, balance: DecV) -> Option<DecV> {
    match requested {
        Some(s) => Some(s),
        None => decimal_checked_mul(balance, scaled_dv(1, 2)),
    }
}

/// The trade placed for a direction, quote, account and ATR: `None` when the
/// direction is not "buy" or "sell"; `Some(None)` when a level or the stake
/// cannot be represented; otherwise the entry at the quote's ask (buy) or bid
/// (sell), the stop and target from `trade_levels_spec`, and the stake.
pub open spec fn placed_spec(
    direction: Seq<char>,
    symbol: Seq<char>,
    stake: Option<DecV>,
    bid: DecV,
    ask: DecV,
    balance: DecV,
    atr: Option<DecV>,
) -> Option<Option<(Side, DecV, DecV, DecV, DecV)>> {
    match direction_side(direction) {
        None => None,
        Some(side) => {
            let entry = if side == Side::Buy {
                ask
            } else {
                bid
            };
            match atr_or_fallback(entry, atr) {
                None => Some(None),
                Some(a) => match trade_levels_spec(side, entry, a, symbol) {
                    None => Some(None),
                    Some((sl, tp)) => match stake_spec(stake, balance) {
                        None => Some(None),
                        Some(size) => Some(Some((side, entry, sl, tp, size))),
                    },
                },
            }
        },
    }
}

pub open spec fn opt_dv(o: Option<Dec>) -> Option<DecV> {
    match o {
        Some(x) => Some(x@),
        None => None,
    }
}

/// The trade a manual request places: a bad direction is refused before
/// anything else; otherwise one open market trade on the account, with no
/// strategy, at the quote's ask for a buy and bid for a sell, a stop at
/// max(ATR, 20 pips) and a target at twice that distance, and the requested
/// stake or 1% of the balance.
///
/// Without an ATR the stop distance starts from half a percent of the entry.
/// The handler this follows builds that fallback as `Decimal::new(5, 1000)`,
/// whose scale exceeds 28 and which therefore always panics, even when an ATR
/// is present, because the fallback is evaluated eagerly; a verified function
/// cannot panic, so this one places the trade instead.
pub fn place_trade(req: &TradeRequest, quote: &Quote, account: &TradeAccount, atr: Option<Dec>) -> (r: Result<
    NewTrade,
    TradeError,
>)
    requires
        quote.bid.wf(),
        quote.ask.wf(),
        account.balance.wf(),
        req.stake matches Some(s) ==> s.wf(),
        atr matches Some(a) ==> a.wf(),
    ensures
        match placed_spec(
            req.direction@,
            req.symbol@,
            opt_dv(req.stake),
            quote.bid@,
            quote.ask@,
            account.balance@,
            opt_dv(atr),
        ) {
            None => r == Err::<NewTrade, TradeError>(TradeError::BadDirection),
            Some(None) => r == Err::<NewTrade, TradeError>(TradeError::Overflow),
            Some(Some((side, entry, sl, tp, size))) => r matches Ok(t) && {
                &&& t.account_id@ == account.id@
                &&& t.strategy_id@ == nil_uuid()
                &&& t.symbol@ == req.symbol@
                &&& t.side == side
                &&& t.mode == account.mode
                &&& t.size@ == size
                &&& t.entry_price@ == entry
                &&& t.stop_loss@ == sl
                &&& t.take_profit@ == tp
                &&& placed_geometry(side, entry, opt_dv(atr), req.symbol@, sl, tp)
            },
        },
{
    proof {
        reveal_strlit("buy");
        reveal_strlit("sell");
    }
    let side = match parse_direction(req.direction.as_str()) {
        Ok(s) => s,
        Err(e) => {
            return Err(e);
        },
    };
    let entry = entry_for(side, quote);
    let a = match atr {
        Some(a) => a,
        None => match entry.mul(&Dec::new(5, 3)) {
            Some(x) => x,
            None => {
                return Err(TradeError::Overflow);
            },
        },
    };
    let (sl, tp) = match trade_levels(side, &entry, &a, req.symbol.as_str()) {
        Some(x) => x,
        None => {
            return Err(TradeError::Overflow);
        },
    };
    let size = match trade_stake(req.stake, &account.balance) {
        Some(x) => x,
        None => {
            return Err(TradeError::Overflow);
        },
    };
    Ok(
        NewTrade {
            account_id: account.id.clone(),
            strategy_id: String::from_str("00000000-0000-0000-0000-000000000000"),
            symbol: req.symbol.clone(),
            side,
            mode: account.mode,
            size,
            entry_price: entry,
            stop_loss: sl,
            take_profit: tp,
        },
    )
}

} // verus!
