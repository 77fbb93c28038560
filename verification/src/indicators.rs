//! Indicator readings over a candle window, as the analysis reads them.
use crate::decimal::{dv_eq, int_dv, opt_view, Dec, DecV};
use crate::text::string_eq;
use vstd::prelude::*;

verus! {

/// Indicator values computed over a candle window.  Per-period series
/// (`rsi`, `ema`, `atr`) are lists of (period, value); `patterns` lists
/// detector names with their value (1 when the pattern is present), in the
/// order the detector reports them.
#[derive(Clone, Debug)]
pub struct Indicators {
    pub price: Dec,
    pub adx: Dec,
    pub macd: Option<Dec>,
    pub bb_lower: Dec,
    pub bb_upper: Dec,
    pub bb_width_pct: Dec,
    pub stoch_k: Dec,
    pub consecutive_bullish: u32,
    pub consecutive_bearish: u32,
    pub rsi_divergence: String,
    pub swing_high: Dec,
    pub swing_low: Dec,
    pub pct_change: Dec,
    pub rsi: Vec<(u32, Dec)>,
    pub ema: Vec<(u32, Dec)>,
    pub atr: Vec<(u32, Dec)>,
    pub patterns: Vec<(String, Dec)>,
}

pub open spec fn series_wf(s: Seq<(u32, Dec)>) -> bool {
    forall|i: int| 0 <= i < s.len() ==> (#[trigger] s[i]).1.wf()
}

pub open spec fn patterns_wf(s: Seq<(String, Dec)>) -> bool {
    forall|i: int| 0 <= i < s.len() ==> (#[trigger] s[i]).1.wf()
}

/// Value of the first entry for `period`, if any.
pub open spec fn series_get(s: Seq<(u32, Dec)>, period: u32) -> Option<DecV>
    decreases s.len(),
{
    if s.len() == 0 {
        None
    } else if s[0].0 == period {
        Some(s[0].1@)
    } else {
        series_get(s.drop_first(), period)
    }
}

/// Value of the first pattern entry named `name`, if any.
pub open spec fn pattern_get(s: Seq<(String, Dec)>, name: Seq<char>) -> Option<DecV>
    decreases s.len(),
{
    if s.len() == 0 {
        None
    } else if s[0].0@ == name {
        Some(s[0].1@)
    } else {
        pattern_get(s.drop_first(), name)
    }
}

/// The pattern `name` is reported with value 1.
pub open spec fn pattern_on(s: Seq<(String, Dec)>, name: Seq<char>) -> bool {
    match pattern_get(s, name) {
        Some(v) => dv_eq(v, int_dv(1)),
        None => false,
    }
}

/// Name of the first pattern whose value is 1, if any.
pub open spec fn first_active(s: Seq<(String, Dec)>) -> Option<Seq<char>>
    decreases s.len(),
{
    if s.len() == 0 {
        None
    } else if dv_eq(s[0].1@, int_dv(1)) {
        Some(s[0].0@)
    } else {
        first_active(s.drop_first())
    }
}

/// `get(&period).copied().unwrap_or(default)` on a per-period series.
pub open spec fn series_or(s: Seq<(u32, Dec)>, period: u32, default: DecV) -> DecV {
    match series_get(s, period) {
        Some(v) => v,
        None => default,
    }
}

impl Indicators {
    pub open spec fn wf(&self) -> bool {
        &&& self.price.wf()
        &&& self.adx.wf()
        &&& (self.macd matches Some(m) ==> m.wf())
        &&& self.bb_lower.wf()
        &&& self.bb_upper.wf()
        &&& self.bb_width_pct.wf()
        &&& self.stoch_k.wf()
        &&& self.swing_high.wf()
        &&& self.swing_low.wf()
        &&& self.pct_change.wf()
        &&& series_wf(self.rsi@)
        &&& series_wf(self.ema@)
        &&& series_wf(self.atr@)
        &&& patterns_wf(self.patterns@)
    }

    pub open spec fn has(&self, name: Seq<char>) -> bool {
        pattern_on(self.patterns@, name)
    }

    /// RSI(14), 50 when absent.
    pub open spec fn rsi14(&self) -> DecV {
        series_or(self.rsi@, 14, int_dv(50))
    }

    /// ATR(14), 0 when absent.
    pub open spec fn atr14(&self) -> DecV {
        series_or(self.atr@, 14, int_dv(0))
    }

    /// EMA(period), the current price when absent.
    pub open spec fn ema_or_price(&self, period: u32) -> DecV {
        series_or(self.ema@, period, self.price@)
    }

    /// Looks up `period` in a per-period series.
    pub fn lookup(s: &Vec<(u32, Dec)>, period: u32) -> (r: Option<Dec>)
        requires
            series_wf(s@),
        ensures
            opt_view(r) == series_get(s@, period),
            r matches Some(x) ==> x.wf(),
    {
        let n = s.len();
        let mut i: usize = 0;
        assert(s@.skip(0) =~= s@);
        while i < n
            invariant
                n == s@.len(),
                i <= n,
                series_wf(s@),
                series_get(s@, period) == series_get(s@.skip(i as int), period),
            decreases n - i,
        {
            assert(s@.skip(i as int).drop_first() =~= s@.skip(i + 1));
            if s[i].0 == period {
                return Some(s[i].1);
            }
            i = i + 1;
        }
        None
    }

    /// `lookup(..).unwrap_or(default)`.
    pub fn lookup_or(s: &Vec<(u32, Dec)>, period: u32, default: Dec) -> (r: Dec)
        requires
            series_wf(s@),
            default.wf(),
        ensures
            r@ == series_or(s@, period, default@),
            r.wf(),
    {
        match Self::lookup(s, period) {
            Some(x) => x,
            None => default,
        }
    }

    /// Looks up the value reported for pattern `name`.
    pub fn pattern_value(s: &Vec<(String, Dec)>, name: &str) -> (r: Option<Dec>)
        requires
            patterns_wf(s@),
        ensures
            opt_view(r) == pattern_get(s@, name@),
            r matches Some(x) ==> x.wf(),
    {
        let n = s.len();
        let mut i: usize = 0;
        assert(s@.skip(0) =~= s@);
        while i < n
            invariant
                n == s@.len(),
                i <= n,
                patterns_wf(s@),
                pattern_get(s@, name@) == pattern_get(s@.skip(i as int), name@),
            decreases n - i,
        {
            assert(s@.skip(i as int).drop_first() =~= s@.skip(i + 1));
            if string_eq(&s[i].0, name) {
                return Some(s[i].1);
            }
            i = i + 1;
        }
        None
    }

    /// The pattern `name` is present (value 1).
    pub fn has_pattern(&self, name: &str) -> (r: bool)
        requires
            self.wf(),
        ensures
            r == self.has(name@),
    {
        match Self::pattern_value(&self.patterns, name) {
            Some(v) => v.eq(&Dec::one()),
            None => false,
        }
    }

    /// Name of the first pattern whose value is 1.
    pub fn first_active_pattern(&self) -> (r: Option<String>)
        requires
            self.wf(),
        ensures
            match r {
                Some(x) => first_active(self.patterns@) == Some(x@),
                None => first_active(self.patterns@) is None,
            },
    {
        let s = &self.patterns;
        let n = s.len();
        let one = Dec::one();
        let mut i: usize = 0;
        assert(s@.skip(0) =~= s@);
        while i < n
            invariant
                n == s@.len(),
                i <= n,
                patterns_wf(s@),
                one@ == int_dv(1),
                s@ == self.patterns@,
                first_active(s@) == first_active(s@.skip(i as int)),
            decreases n - i,
        {
            assert(s@.skip(i as int).drop_first() =~= s@.skip(i + 1));
            if s[i].1.eq(&one) {
                let name = s[i].0.clone();
                assert(s@.skip(i as int)[0] == s@[i as int]);
                assert(name@ == s@.skip(i as int)[0].0@);
                assert(first_active(s@.skip(i as int)) == Some(name@));
                return Some(name);
            }
            i = i + 1;
        }
        None
    }

    /// RSI(14), 50 when absent.
    pub fn rsi_14(&self) -> (r: Dec)
        requires
            self.wf(),
        ensures
            r.wf(),
            r@ == self.rsi14(),
    {
        Self::lookup_or(&self.rsi, 14, Dec::from_i64(50))
    }

    /// ATR(14), 0 when absent.
    pub fn atr_14(&self) -> (r: Dec)
        requires
            self.wf(),
        ensures
            r.wf(),
            r@ == self.atr14(),
    {
        Self::lookup_or(&self.atr, 14, Dec::zero())
    }

    /// EMA(period), the current price when absent.
    pub fn ema_or(&self, period: u32) -> (r: Dec)
        requires
            self.wf(),
        ensures
            r.wf(),
            r@ == self.ema_or_price(period),
    {
        Self::lookup_or(&self.ema, period, self.price)
    }
}

} // verus!
