//! Market and strategy data shared by the analysis, engine and backtest.
use crate::decimal::Dec;
use vstd::prelude::*;

verus! {

/// One OHLCV bar; `ts` is the bar's open time in UNIX seconds.
#[derive(Clone, Debug)]
pub struct Candle {
    pub symbol: String,
    pub ts: i64,
    pub open: Dec,
    pub high: Dec,
    pub low: Dec,
    pub close: Dec,
    pub volume: Dec,
}

impl Candle {
    pub open spec fn wf(&self) -> bool {
        &&& self.open.wf()
        &&& self.high.wf()
        &&& self.low.wf()
        &&& self.close.wf()
        &&& self.volume.wf()
    }
}

pub open spec fn candles_wf(s: Seq<Candle>) -> bool {
    forall|i: int| 0 <= i < s.len() ==> (#[trigger] s[i]).wf()
}

#[derive(Clone, Copy, Debug, PartialEq, Eq, Structural)]
pub enum Side {
    Buy,
    Sell,
}

#[derive(Clone, Copy, Debug, PartialEq, Eq, Structural)]
pub enum AssetClass {
    Forex,
    DerivIndex,
}

#[derive(Clone, Copy, Debug, PartialEq, Eq, Structural)]
pub enum TradingMode {
    Paper,
    Signals,
    Live,
}

/// A weighted rule of a strategy; `expr` is a rule-DSL expression.
#[derive(Clone, Debug)]
pub struct Rule {
    pub name: String,
    pub expr: String,
    pub weight: Dec,
    pub enabled: bool,
}

/// The parts of a strategy that signal generation and backtesting read.
#[derive(Clone, Debug)]
pub struct Strategy {
    pub name: String,
    pub asset_class: AssetClass,
    pub symbols: Vec<String>,
    /// Stop distance in pips (forex) or points (indices).
    pub stop_loss: Option<Dec>,
    /// Target distance in pips (forex) or points (indices).
    pub take_profit: Option<Dec>,
    pub risk_per_trade: Dec,
}

pub open spec fn opt_dec_wf(o: Option<Dec>) -> bool {
    match o {
        Some(d) => d.wf(),
        None => true,
    }
}

impl Strategy {
    pub open spec fn wf(&self) -> bool {
        &&& opt_dec_wf(self.stop_loss)
        &&& opt_dec_wf(self.take_profit)
        &&& self.risk_per_trade.wf()
    }
}

/// A rule as submitted when a strategy is created.
#[derive(Clone, Debug)]
pub struct CreateRule {
    pub name: String,
    pub expr: String,
    pub weight: Dec,
}

/// A strategy as submitted for creation.
#[derive(Clone, Debug)]
pub struct CreateStrategy {
    pub name: String,
    pub description: Option<String>,
    pub asset_class: AssetClass,
    pub symbols: Vec<String>,
    pub stop_loss: Option<Dec>,
    pub take_profit: Option<Dec>,
    pub risk_per_trade: Dec,
    pub rules: Vec<CreateRule>,
}

/// A note as submitted for creation.
#[derive(Clone, Debug)]
pub struct CreateNote {
    pub title: String,
    pub content: String,
    pub content_type: String,
}

} // verus!
