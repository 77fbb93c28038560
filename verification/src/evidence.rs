//! Evidence gathering: every reading of the chart becomes a verifiable fact
//! with the side it supports and its weight; the weights add up to the
//! bullish and bearish scores.
use crate::candles::candle_fits;
use crate::decimal::{
    abs_v, decimal_checked_add, decimal_checked_div, decimal_checked_mul, decimal_text, dv_eq, dv_is_zero,
    dv_le, dv_lt, int_dv, mantissa_bound, max_v, min_v, round_dp_spec, scaled_dv, sub_v, Dec, DecV,
};
use crate::domain::{candles_wf, Candle};
use crate::indicators::{series_get, Indicators};
use crate::reading::{meaning_spec, pattern_meaning, pattern_sentiment, sentiment_spec};
use crate::text::nat_text;
use crate::text::u64_text;
use vstd::prelude::*;

verus! {

/// The side a fact supports.
#[derive(Clone, Copy, Debug, PartialEq, Eq, Structural)]
pub enum Lean {
    Buy,
    Sell,
    Neutral,
}

pub open spec fn lean_text(l: Lean) -> Seq<char> {
    match l {
        Lean::Buy => "buy"@,
        Lean::Sell => "sell"@,
        Lean::Neutral => "neutral"@,
    }
}

impl Lean {
    /// "buy", "sell" or "neutral".
    pub fn to_text(&self) -> (r: String)
        ensures
            r@ == lean_text(*self),
    {
        match self {
            Lean::Buy => String::from_str("buy"),
            Lean::Sell => String::from_str("sell"),
            Lean::Neutral => String::from_str("neutral"),
        }
    }
}

/// One verifiable fact read from a tool.
#[derive(Debug)]
pub struct Evidence {
    pub source: String,
    pub finding: String,
    pub confirms: Lean,
    pub weight: Dec,
}

pub struct EvidenceV {
    pub source: Seq<char>,
    pub finding: Seq<char>,
    pub confirms: Lean,
    pub weight: DecV,
}

impl View for Evidence {
    type V = EvidenceV;

    open spec fn view(&self) -> EvidenceV {
        EvidenceV {
            source: self.source@,
            finding: self.finding@,
            confirms: self.confirms,
            weight: self.weight@,
        }
    }
}

pub open spec fn ev(source: Seq<char>, finding: Seq<char>, confirms: Lean, weight: DecV) -> EvidenceV {
    EvidenceV { source, finding, confirms, weight }
}

/// Facts gathered so far, the two scores and the sides that trend,
/// momentum and patterns point to.
#[derive(Debug)]
pub struct Tally {
    pub evidence: Vec<Evidence>,
    pub bull: Dec,
    pub bear: Dec,
    pub trend: Lean,
    pub momentum: Lean,
    pub pattern: Lean,
}

pub struct TallyV {
    pub evidence: Seq<EvidenceV>,
    pub bull: DecV,
    pub bear: DecV,
    pub trend: Lean,
    pub momentum: Lean,
    pub pattern: Lean,
}

impl View for Tally {
    type V = TallyV;

    open spec fn view(&self) -> TallyV {
        TallyV {
            evidence: self.evidence@.map_values(|e: Evidence| e@),
            bull: self.bull@,
            bear: self.bear@,
            trend: self.trend,
            momentum: self.momentum,
            pattern: self.pattern,
        }
    }
}

pub open spec fn opt_tally(o: Option<Tally>) -> Option<TallyV> {
    match o {
        Some(t) => Some(t@),
        None => None,
    }
}

pub open spec fn with_ev(t: TallyV, e: EvidenceV) -> TallyV {
    TallyV {
        evidence: t.evidence.push(e),
        bull: t.bull,
        bear: t.bear,
        trend: t.trend,
        momentum: t.momentum,
        pattern: t.pattern,
    }
}

pub open spec fn with_dirs(t: TallyV, trend: Lean, momentum: Lean, pattern: Lean) -> TallyV {
    TallyV { evidence: t.evidence, bull: t.bull, bear: t.bear, trend, momentum, pattern }
}

pub open spec fn with_scores(t: TallyV, bull: DecV, bear: DecV) -> TallyV {
    TallyV { evidence: t.evidence, bull, bear, trend: t.trend, momentum: t.momentum, pattern: t.pattern }
}

/// Adds `w` to the bullish score (Buy) or the bearish score (Sell).
pub open spec fn credit(t: TallyV, c: Lean, w: DecV) -> Option<TallyV> {
    match c {
        Lean::Buy => match decimal_checked_add(t.bull, w) {
            Some(b) => Some(with_scores(t, b, t.bear)),
            None => None,
        },
        Lean::Sell => match decimal_checked_add(t.bear, w) {
            Some(b) => Some(with_scores(t, t.bull, b)),
            None => None,
        },
        Lean::Neutral => Some(t),
    }
}

/// Records a fact and credits its weight to the side it supports.
pub open spec fn note(t: TallyV, source: Seq<char>, finding: Seq<char>, c: Lean, w: DecV) -> Option<TallyV> {
    credit(with_ev(t, ev(source, finding, c, w)), c, w)
}

pub open spec fn evidence_wf(s: Seq<Evidence>) -> bool {
    forall|i: int| 0 <= i < s.len() ==> (#[trigger] s[i]).weight.wf()
}

impl Tally {
    pub open spec fn wf(&self) -> bool {
        &&& self.bull.wf()
        &&& self.bear.wf()
        &&& evidence_wf(self.evidence@)
    }

    /// No facts, zero scores, every side neutral.
    pub fn new() -> (r: Tally)
        ensures
            r.wf(),
            r@ == (TallyV {
                evidence: Seq::empty(),
                bull: int_dv(0),
                bear: int_dv(0),
                trend: Lean::Neutral,
                momentum: Lean::Neutral,
                pattern: Lean::Neutral,
            }),
    {
        let r = Tally {
            evidence: Vec::new(),
            bull: Dec::zero(),
            bear: Dec::zero(),
            trend: Lean::Neutral,
            momentum: Lean::Neutral,
            pattern: Lean::Neutral,
        };
        assert(r@.evidence =~= Seq::<EvidenceV>::empty());
        r
    }

    /// Appends a fact without touching the scores.
    pub fn record(&mut self, source: &str, finding: String, confirms: Lean, weight: Dec)
        requires
            old(self).wf(),
            weight.wf(),
        ensures
            final(self).wf(),
            final(self)@ == with_ev(old(self)@, ev(source@, finding@, confirms, weight@)),
    {
        let ghost before = self@;
        self.evidence.push(Evidence { source: String::from_str(source), finding, confirms, weight });
        assert(self@.evidence =~= before.evidence.push(ev(source@, finding@, confirms, weight@)));
    }

    /// Adds a weight to the side it supports; `None` on overflow.
    pub fn credit(self, confirms: Lean, w: Dec) -> (r: Option<Tally>)
        requires
            self.wf(),
            w.wf(),
        ensures
            opt_tally(r) == credit(self@, confirms, w@),
            r matches Some(x) ==> x.wf(),
    {
        let mut t = self;
        match confirms {
            Lean::Buy => {
                let b = t.bull.add(&w)?;
                t.bull = b;
            },
            Lean::Sell => {
                let b = t.bear.add(&w)?;
                t.bear = b;
            },
            Lean::Neutral => {},
        }
        Some(t)
    }

    /// Records a fact and credits its weight.
    pub fn note(self, source: &str, finding: String, confirms: Lean, w: Dec) -> (r: Option<Tally>)
        requires
            self.wf(),
            w.wf(),
        ensures
            opt_tally(r) == note(self@, source@, finding@, confirms, w@),
            r matches Some(x) ==> x.wf(),
    {
        let mut t = self;
        t.record(source, finding, confirms, w);
        t.credit(confirms, w)
    }
}

// ---------------------------------------------------------------------------
// Context shared by several tools.
// ---------------------------------------------------------------------------
/// A bullish reversal candlestick is printed.
pub open spec fn bull_reversal(ind: Indicators) -> bool {
    ind.has("hammer"@) || ind.has("bullish_engulfing"@) || ind.has("morning_star"@) || ind.has(
        "dragonfly_doji"@,
    ) || ind.has("piercing_line"@) || ind.has("bullish_harami"@) || ind.has("three_bar_bull_reversal"@)
        || ind.has("failed_breakout_down"@)
}

/// A bearish reversal candlestick is printed.
pub open spec fn bear_reversal(ind: Indicators) -> bool {
    ind.has("shooting_star"@) || ind.has("bearish_engulfing"@) || ind.has("evening_star"@) || ind.has(
        "gravestone_doji"@,
    ) || ind.has("dark_cloud_cover"@) || ind.has("bearish_harami"@) || ind.has("three_bar_bear_reversal"@)
        || ind.has("failed_breakout_up"@)
}

pub open spec fn dec_max_v() -> DecV {
    (false, (mantissa_bound() - 1) as nat, 0nat)
}

/// Lowest low of `s`, folding from the newest candle back, from `Decimal::MAX`.
pub open spec fn low_newest_first(s: Seq<Candle>) -> DecV
    decreases s.len(),
{
    if s.len() == 0 {
        dec_max_v()
    } else {
        min_v(low_newest_first(s.drop_first()), s[0].low@)
    }
}

/// Highest high of `s`, folding from the newest candle back, from zero.
pub open spec fn high_newest_first(s: Seq<Candle>) -> DecV
    decreases s.len(),
{
    if s.len() == 0 {
        int_dv(0)
    } else {
        max_v(high_newest_first(s.drop_first()), s[0].high@)
    }
}

/// The 40 candles before the last 10: where prior swing levels are read.
pub open spec fn swing_window(s: Seq<Candle>) -> Seq<Candle> {
    s.subrange(s.len() - 50, s.len() - 10)
}

/// Price lies within 2 ATR of `level` (`None` on overflow).
pub open spec fn near_level(ind: Indicators, level: DecV) -> Option<bool> {
    match crate::decimal::decimal_checked_sub(ind.price@, level) {
        Some(d) => match decimal_checked_mul(ind.atr14(), int_dv(2)) {
            Some(m) => Some(dv_le(abs_v(d), m)),
            None => None,
        },
        None => None,
    }
}

pub open spec fn support_spec(ind: Indicators, low: DecV) -> Option<bool> {
    if !dv_lt(low, dec_max_v()) {
        Some(false)
    } else {
        near_level(ind, low)
    }
}

pub open spec fn resistance_spec(ind: Indicators, high: DecV) -> Option<bool> {
    if !dv_lt(int_dv(0), high) {
        Some(false)
    } else {
        near_level(ind, high)
    }
}

pub open spec fn b2n(b: bool) -> nat {
    if b {
        1
    } else {
        0
    }
}

pub open spec fn bull_count_spec(ind: Indicators, at_support: bool) -> nat {
    b2n(dv_lt(ind.rsi14(), int_dv(35))) + b2n(bull_reversal(ind)) + b2n(dv_lt(ind.stoch_k@, int_dv(20)))
        + b2n(at_support) + b2n(ind.consecutive_bearish >= 3)
}

pub open spec fn bear_count_spec(ind: Indicators, at_resistance: bool) -> nat {
    b2n(dv_lt(int_dv(65), ind.rsi14())) + b2n(bear_reversal(ind)) + b2n(dv_lt(int_dv(80), ind.stoch_k@))
        + b2n(at_resistance) + b2n(ind.consecutive_bullish >= 3)
}

/// Readings that several tools share.
#[derive(Debug)]
pub struct Context {
    pub bull_rev: bool,
    pub bear_rev: bool,
    pub prior_low: Dec,
    pub prior_high: Dec,
    pub at_support: bool,
    pub at_resistance: bool,
    pub rsi: Dec,
    pub bull_rev_count: u32,
    pub bear_rev_count: u32,
}

impl Context {
    pub open spec fn wf(&self) -> bool {
        self.prior_low.wf() && self.prior_high.wf() && self.rsi.wf()
    }

    /// The context is what `context_of` computes for these readings.
    pub open spec fn of(&self, candles: Seq<Candle>, ind: Indicators) -> bool {
        &&& self.bull_rev == bull_reversal(ind)
        &&& self.bear_rev == bear_reversal(ind)
        &&& self.prior_low@ == low_newest_first(swing_window(candles))
        &&& self.prior_high@ == high_newest_first(swing_window(candles))
        &&& support_spec(ind, self.prior_low@) == Some(self.at_support)
        &&& resistance_spec(ind, self.prior_high@) == Some(self.at_resistance)
        &&& self.rsi@ == ind.rsi14()
        &&& self.bull_rev_count as nat == bull_count_spec(ind, self.at_support)
        &&& self.bear_rev_count as nat == bear_count_spec(ind, self.at_resistance)
    }
}

fn any_pattern(ind: &Indicators, a: &str, b: &str, c: &str, d: &str, e: &str, f: &str, g: &str, h: &str) -> (r: bool)
    requires
        ind.wf(),
    ensures
        r == (ind.has(a@) || ind.has(b@) || ind.has(c@) || ind.has(d@) || ind.has(e@) || ind.has(f@)
            || ind.has(g@) || ind.has(h@)),
{
    ind.has_pattern(a) || ind.has_pattern(b) || ind.has_pattern(c) || ind.has_pattern(d) || ind.has_pattern(e)
        || ind.has_pattern(f) || ind.has_pattern(g) || ind.has_pattern(h)
}

/// Prior swing low and high: lowest low and highest high of the 40 candles
/// before the last 10, read from the newest back.
fn swing_levels(candles: &Vec<Candle>) -> (r: (Dec, Dec))
    requires
        candles.len() >= 50,
        candles_wf(candles@),
    ensures
        r.0.wf() && r.1.wf(),
        r.0@ == low_newest_first(swing_window(candles@)),
        r.1@ == high_newest_first(swing_window(candles@)),
{
    let n = candles.len();
    let lo_end = n - 10;
    let lo_start = n - 50;
    let mut low = Dec::max_value();
    let mut high = Dec::zero();
    let mut j = lo_end;
    let ghost s = candles@;
    assert(s.subrange(lo_end as int, lo_end as int) =~= Seq::<Candle>::empty());
    while j > lo_start
        invariant
            s == candles@,
            candles_wf(s),
            n == s.len(),
            lo_start == n - 50,
            lo_end == n - 10,
            lo_start <= j <= lo_end,
            low.wf() && high.wf(),
            low@ == low_newest_first(s.subrange(j as int, lo_end as int)),
            high@ == high_newest_first(s.subrange(j as int, lo_end as int)),
        decreases j,
    {
        let c = &candles[j - 1];
        assert(s.subrange(j - 1, lo_end as int).drop_first() =~= s.subrange(j as int, lo_end as int));
        assert(s.subrange(j - 1, lo_end as int)[0] == s[j - 1]);
        assert(s[j - 1].wf());
        low = low.min(c.low);
        high = high.max(c.high);
        j = j - 1;
    }
    (low, high)
}

fn near(ind: &Indicators, level: &Dec) -> (r: Option<bool>)
    requires
        ind.wf(),
        level.wf(),
    ensures
        r == near_level(*ind, level@),
{
    let d = ind.price.sub(level)?;
    let m = ind.atr_14().mul(&Dec::from_i64(2))?;
    Some(d.abs().le(&m))
}

/// Computes the shared context; `None` on arithmetic overflow.
#[verifier::rlimit(40)]
#[verifier::spinoff_prover]
pub fn context_of(candles: &Vec<Candle>, ind: &Indicators) -> (r: Option<Context>)
    requires
        candles.len() >= 50,
        candles_wf(candles@),
        ind.wf(),
    ensures
        match r {
            Some(c) => c.wf() && c.of(candles@, *ind),
            None => support_spec(*ind, low_newest_first(swing_window(candles@))) is None || resistance_spec(
                *ind,
                high_newest_first(swing_window(candles@)),
            ) is None,
        },
{
    let bull_rev = any_pattern(
        ind,
        "hammer",
        "bullish_engulfing",
        "morning_star",
        "dragonfly_doji",
        "piercing_line",
        "bullish_harami",
        "three_bar_bull_reversal",
        "failed_breakout_down",
    );
    let bear_rev = any_pattern(
        ind,
        "shooting_star",
        "bearish_engulfing",
        "evening_star",
        "gravestone_doji",
        "dark_cloud_cover",
        "bearish_harami",
        "three_bar_bear_reversal",
        "failed_breakout_up",
    );
    let (low, high) = swing_levels(candles);
    let at_support = if low.lt(&Dec::max_value()) {
        near(ind, &low)?
    } else {
        false
    };
    let at_resistance = if Dec::zero().lt(&high) {
        near(ind, &high)?
    } else {
        false
    };
    let rsi = ind.rsi_14();
    let mut bc: u32 = 0;
    if rsi.lt(&Dec::from_i64(35)) {
        bc = bc + 1;
    }
    if bull_rev {
        bc = bc + 1;
    }
    if ind.stoch_k.lt(&Dec::from_i64(20)) {
        bc = bc + 1;
    }
    if at_support {
        bc = bc + 1;
    }
    if ind.consecutive_bearish >= 3 {
        bc = bc + 1;
    }
    let mut sc: u32 = 0;
    if rsi.gt(&Dec::from_i64(65)) {
        sc = sc + 1;
    }
    if bear_rev {
        sc = sc + 1;
    }
    if ind.stoch_k.gt(&Dec::from_i64(80)) {
        sc = sc + 1;
    }
    if at_resistance {
        sc = sc + 1;
    }
    if ind.consecutive_bullish >= 3 {
        sc = sc + 1;
    }
    Some(
        Context {
            bull_rev,
            bear_rev,
            prior_low: low,
            prior_high: high,
            at_support,
            at_resistance,
            rsi,
            bull_rev_count: bc,
            bear_rev_count: sc,
        },
    )
}

} // verus!
