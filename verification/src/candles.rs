//! Candle summaries and timeframe aggregation.
use crate::decimal::{
    abs_v, decimal_checked_add, decimal_checked_sub, dv_lt, dv_wf, exact_diff, int_dv, mantissa_bound,
    max_v, min_v, round_dp_spec, sub_v, Dec, DecV,
};
use crate::domain::{candles_wf, Candle};
use crate::indicators::{first_active, Indicators};
use vstd::prelude::*;

verus! {

impl Candle {
    /// A field-by-field copy.
    pub fn duplicate(&self) -> (r: Candle)
        ensures
            r == *self,
    {
        Candle {
            symbol: self.symbol.clone(),
            ts: self.ts,
            open: self.open,
            high: self.high,
            low: self.low,
            close: self.close,
            volume: self.volume,
        }
    }
}

/// One candle as reported to the user.
#[derive(Clone, Debug)]
pub struct CandleSummary {
    pub direction: String,
    pub open: Dec,
    pub high: Dec,
    pub low: Dec,
    pub close: Dec,
    pub body: Dec,
    pub upper_wick: Dec,
    pub lower_wick: Dec,
    pub pattern: String,
}

/// "bullish" when close > open, "bearish" when close < open, else "neutral".
pub open spec fn direction_of(c: Candle) -> Seq<char> {
    if dv_lt(c.open@, c.close@) {
        "bullish"@
    } else if dv_lt(c.close@, c.open@) {
        "bearish"@
    } else {
        "neutral"@
    }
}

/// The candle's arithmetic stays within what a decimal can hold.
pub open spec fn candle_fits(c: Candle) -> bool {
    &&& dv_wf(exact_diff(c.close@, c.open@))
    &&& dv_wf(exact_diff(c.high@, max_v(c.open@, c.close@)))
    &&& dv_wf(exact_diff(min_v(c.open@, c.close@), c.low@))
}

pub open spec fn summary_pattern(c: Candle, ind: Indicators) -> Seq<char> {
    match first_active(ind.patterns@) {
        Some(p) => p,
        None => if dv_lt(c.open@, c.close@) {
            "bullish_candle"@
        } else if dv_lt(c.close@, c.open@) {
            "bearish_candle"@
        } else {
            "doji"@
        },
    }
}

/// Describes a candle: direction, body and wicks (6 decimals) and the first
/// pattern the indicators report, or the candle's own colour.
pub fn summarize_candle(c: &Candle, ind: &Indicators) -> (r: CandleSummary)
    requires
        c.wf(),
        ind.wf(),
        candle_fits(*c),
    ensures
        r.direction@ == direction_of(*c),
        r.open == c.open,
        r.high == c.high,
        r.low == c.low,
        r.close == c.close,
        r.body@ == round_dp_spec(abs_v(sub_v(c.close@, c.open@)), 6),
        r.upper_wick@ == round_dp_spec(sub_v(c.high@, max_v(c.open@, c.close@)), 6),
        r.lower_wick@ == round_dp_spec(sub_v(min_v(c.open@, c.close@), c.low@), 6),
        r.pattern@ == summary_pattern(*c, *ind),
        r.body.wf() && r.upper_wick.wf() && r.lower_wick.wf(),
{
    let diff = c.close.sub(&c.open).unwrap();
    let body = diff.abs().round_dp(6);
    let upper = c.high.sub(&c.open.max(c.close)).unwrap().round_dp(6);
    let lower = c.open.min(c.close).sub(&c.low).unwrap().round_dp(6);
    let direction = if c.close.gt(&c.open) {
        String::from_str("bullish")
    } else if c.close.lt(&c.open) {
        String::from_str("bearish")
    } else {
        String::from_str("neutral")
    };
    let pattern = match ind.first_active_pattern() {
        Some(p) => p,
        None => {
            if c.close.gt(&c.open) {
                String::from_str("bullish_candle")
            } else if c.close.lt(&c.open) {
                String::from_str("bearish_candle")
            } else {
                String::from_str("doji")
            }
        },
    };
    CandleSummary {
        direction,
        open: c.open,
        high: c.high,
        low: c.low,
        close: c.close,
        body,
        upper_wick: upper,
        lower_wick: lower,
        pattern,
    }
}

/// Highest high of a run of candles, starting from zero (`fold(ZERO, max)`).
pub open spec fn max_high(s: Seq<Candle>) -> DecV
    decreases s.len(),
{
    if s.len() == 0 {
        int_dv(0)
    } else {
        max_v(max_high(s.drop_last()), s.last().high@)
    }
}

/// Lowest low of a run of candles, starting from `Decimal::MAX`.
pub open spec fn min_low(s: Seq<Candle>) -> DecV
    decreases s.len(),
{
    if s.len() == 0 {
        (false, (mantissa_bound() - 1) as nat, 0nat)
    } else {
        min_v(min_low(s.drop_last()), s.last().low@)
    }
}

/// Sum of volumes by checked additions from zero; `None` on overflow.
pub open spec fn volume_sum(s: Seq<Candle>) -> Option<DecV>
    decreases s.len(),
{
    if s.len() == 0 {
        Some(int_dv(0))
    } else {
        match volume_sum(s.drop_last()) {
            Some(a) => decimal_checked_add(a, s.last().volume@),
            None => None,
        }
    }
}

/// The `k`-th group of `factor` candles, after dropping the oldest
/// `len % factor` candles.
pub open spec fn chunk(s: Seq<Candle>, factor: nat, k: int) -> Seq<Candle> {
    let skip = (s.len() % factor) as int;
    s.subrange(skip + k * factor, skip + (k + 1) * factor)
}

/// `b` is the merge of the candles in `ch`.
pub open spec fn merged(b: Candle, ch: Seq<Candle>) -> bool {
    &&& b.symbol@ == ch[0].symbol@
    &&& b.ts == ch[0].ts
    &&& b.open == ch[0].open
    &&& b.high@ == max_high(ch)
    &&& b.low@ == min_low(ch)
    &&& b.close == ch.last().close
    &&& volume_sum(ch) == Some(b.volume@)
}

proof fn lemma_div_parts(n: int, f: int)
    requires
        f > 0,
        n >= 0,
    ensures
        n == (n / f) * f + n % f,
        0 <= n % f < f,
{
    vstd::arithmetic::div_mod::lemma_fundamental_div_mod(n, f);
    assert(f * (n / f) == (n / f) * f) by (nonlinear_arith);
}

proof fn lemma_chunk_count(len: int, f: int, k: int)
    requires
        f >= 2,
        len >= 0,
        k >= 0,
        len % f + k * f <= len,
        len % f + k * f + f > len,
    ensures
        k == len / f,
{
    lemma_div_parts(len, f);
    let q = len / f;
    assert(k * f <= q * f);
    assert(q * f < k * f + f);
    assert(k == q) by (nonlinear_arith)
        requires
            k * f <= q * f,
            q * f < k * f + f,
            f >= 2,
    ;
}

/// Merges one group of candles into a single bar.
fn merge_chunk(candles: &Vec<Candle>, start: usize, factor: usize) -> (r: Option<Candle>)
    requires
        candles_wf(candles@),
        factor >= 1,
        start + factor <= candles.len(),
    ensures
        match r {
            Some(b) => merged(b, candles@.subrange(start as int, start + factor)) && b.wf(),
            None => volume_sum(candles@.subrange(start as int, start + factor)) is None,
        },
{
    let ghost s = candles@;
    let first = &candles[start];
    let mut high = Dec::zero();
    let mut low = Dec::max_value();
    let mut volume = Dec::zero();
    let mut j: usize = start;
    let end = start + factor;
    assert(s.subrange(start as int, start as int) =~= Seq::<Candle>::empty());
    while j < end
        invariant
            end == start + factor,
            s == candles@,
            candles_wf(s),
            start <= j <= start + factor,
            start + factor <= s.len(),
            high.wf() && low.wf() && volume.wf(),
            high@ == max_high(s.subrange(start as int, j as int)),
            low@ == min_low(s.subrange(start as int, j as int)),
            volume_sum(s.subrange(start as int, j as int)) == Some(volume@),
        decreases start + factor - j,
    {
        let c = &candles[j];
        assert(s.subrange(start as int, j + 1).drop_last() =~= s.subrange(start as int, j as int));
        assert(s.subrange(start as int, j + 1).last() == s[j as int]);
        assert(s[j as int].wf());
        high = high.max(c.high);
        low = low.min(c.low);
        match volume.add(&c.volume) {
            Some(v) => {
                volume = v;
            },
            None => {
                assert forall|t: int| start + factor >= t > j implies #[trigger] volume_sum(
                    s.subrange(start as int, t),
                ) is None by {
                    lemma_sum_stays_none(s, start as int, j + 1, t);
                }
                return None;
            },
        }
        j = j + 1;
    }
    let last = &candles[start + factor - 1];
    Some(
        Candle {
            symbol: first.symbol.clone(),
            ts: first.ts,
            open: first.open,
            high,
            low,
            close: last.close,
            volume,
        },
    )
}

proof fn lemma_sum_stays_none(s: Seq<Candle>, a: int, b: int, t: int)
    requires
        0 <= a <= b <= t <= s.len(),
        volume_sum(s.subrange(a, b)) is None,
    ensures
        volume_sum(s.subrange(a, t)) is None,
    decreases t - b,
{
    if t > b {
        lemma_sum_stays_none(s, a, b, t - 1);
        assert(s.subrange(a, t).drop_last() =~= s.subrange(a, t - 1));
    }
}

/// Groups `factor` consecutive candles into one (first open/time/symbol,
/// highest high from zero, lowest low, last close, summed volume), after
/// dropping the oldest `len % factor` candles.  A factor of at most 1, or no
/// candles, returns the candles unchanged.  `None` when a volume sum
/// overflows.
pub fn aggregate(candles: &Vec<Candle>, factor: usize) -> (r: Option<Vec<Candle>>)
    requires
        candles_wf(candles@),
    ensures
        (factor <= 1 || candles.len() == 0) ==> (r matches Some(out) && out@ == candles@),
        (factor > 1 && candles.len() > 0) ==> match r {
            Some(out) => {
                &&& out.len() == candles.len() / factor
                &&& candles_wf(out@)
                &&& forall|k: int| 0 <= k < out.len() ==> merged(#[trigger] out@[k], chunk(candles@, factor as nat, k))
            },
            None => exists|k: int| 0 <= k < candles.len() / factor && #[trigger] volume_sum(chunk(candles@, factor as nat, k)) is None,
        },
{
    if factor <= 1 || candles.len() == 0 {
        let mut copy: Vec<Candle> = Vec::new();
        let mut i: usize = 0;
        while i < candles.len()
            invariant
                i <= candles.len(),
                copy@ == candles@.take(i as int),
            decreases candles.len() - i,
        {
            copy.push(candles[i].duplicate());
            assert(copy@ =~= candles@.take(i + 1));
            i = i + 1;
        }
        assert(copy@ =~= candles@);
        return Some(copy);
    }
    let ghost s = candles@;
    let n = candles.len();
    let skip = n % factor;
    let mut out: Vec<Candle> = Vec::new();
    let mut i = skip;
    proof {
        lemma_div_parts(n as int, factor as int);
        assert(skip + out.len() * factor == skip) by (nonlinear_arith)
            requires
                out.len() == 0,
        ;
    }
    while factor <= n - i
        invariant
            s == candles@,
            n == s.len(),
            factor > 1,
            candles_wf(s),
            skip == n % factor,
            i == skip + out.len() * factor,
            i <= n,
            candles_wf(out@),
            forall|k: int| 0 <= k < out.len() ==> merged(#[trigger] out@[k], chunk(s, factor as nat, k)),
        decreases n - i,
    {
        let ghost k = out.len() as int;
        assert(chunk(s, factor as nat, k) == s.subrange(i as int, i + factor)) by {
            assert(skip + (k + 1) * factor == skip + k * factor + factor) by (nonlinear_arith);
        }
        match merge_chunk(candles, i, factor) {
            Some(b) => {
                out.push(b);
                assert(out@.last() == b);
            },
            None => {
                proof {
                    let q = (n / factor) as int;
                    lemma_div_parts(n as int, factor as int);
                    assert(k < q) by (nonlinear_arith)
                        requires
                            skip + k * factor + factor <= n,
                            q * factor + skip == n,
                            factor > 1,
                            k >= 0,
                    ;
                    assert(volume_sum(chunk(s, factor as nat, k)) is None);
                }
                return None;
            },
        }
        assert(i + factor == skip + out.len() * factor) by (nonlinear_arith)
            requires
                i == skip + (out.len() - 1) * factor,
        ;
        i = i + factor;
    }
    proof {
        lemma_chunk_count(n as int, factor as int, out.len() as int);
    }
    Some(out)
}

} // verus!
