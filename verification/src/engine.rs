//! Signal generation: a strategy's enabled rules are evaluated on one bar's
//! indicators; the signal's strength is the weight of the rules that fired
//! over the weight of all enabled rules.
use crate::decimal::{
    decimal_checked_add, decimal_checked_div, decimal_checked_mul, decimal_text_prec, dv_eq, dv_le, dv_lt, dv_wf,
    exact_product, exact_sum, int_dv, round_dp_spec, scaled_dv, Dec, DecV,
};
use crate::domain::{Rule, Side, Strategy};
use crate::indicators::Indicators;
use crate::text::{join, join_spec, texts};
use vstd::prelude::*;

verus! {

/// A signal produced on one bar.
#[derive(Clone, Debug)]
pub struct WindowSignal {
    pub side: Side,
    pub price: Dec,
    pub strength: Dec,
    pub rationale: String,
}

/// A weight sum left the decimal range.
#[derive(Clone, Copy, Debug, PartialEq, Eq, Structural)]
pub enum EngineError {
    Overflow,
}

/// The rule fired: enabled and its expression evaluated to true.
pub open spec fn fires(rules: Seq<Rule>, fired: Seq<bool>, k: int) -> bool {
    rules[k].enabled && k < fired.len() && fired[k]
}

/// Total weight of the enabled rules and weight of those that fired, added
/// in rule order (`None` on overflow).
pub open spec fn weight_sums(rules: Seq<Rule>, fired: Seq<bool>, n: nat) -> Option<(DecV, DecV)>
    decreases n,
{
    if n == 0 {
        Some((int_dv(0), int_dv(0)))
    } else {
        match weight_sums(rules, fired, (n - 1) as nat) {
            None => None,
            Some((total, hit)) => {
                let k = n - 1;
                if !rules[k].enabled {
                    Some((total, hit))
                } else {
                    match decimal_checked_add(total, rules[k].weight@) {
                        None => None,
                        Some(t2) => if fires(rules, fired, k) {
                            match decimal_checked_add(hit, rules[k].weight@) {
                                None => None,
                                Some(h2) => Some((t2, h2)),
                            }
                        } else {
                            Some((t2, hit))
                        },
                    }
                }
            },
        }
    }
}

/// Names of the rules that fired, in order.
pub open spec fn fired_names(rules: Seq<Rule>, fired: Seq<bool>, n: nat) -> Seq<Seq<char>>
    decreases n,
{
    if n == 0 {
        Seq::empty()
    } else if fires(rules, fired, n - 1) {
        fired_names(rules, fired, (n - 1) as nat).push(rules[n - 1].name@)
    } else {
        fired_names(rules, fired, (n - 1) as nat)
    }
}

pub open spec fn any_enabled(rules: Seq<Rule>) -> bool {
    exists|k: int| 0 <= k < rules.len() && #[trigger] rules[k].enabled
}

/// The signal, if any: no signal without an enabled rule, with zero total
/// weight or with zero fired weight; otherwise strength = fired / total
/// (6 decimals), side = buy when the last bar's change is not negative.
pub open spec fn signal_spec(rules: Seq<Rule>, fired: Seq<bool>, ind: Indicators) -> Result<
    Option<(Side, DecV, DecV, Seq<char>)>,
    EngineError,
> {
    if !any_enabled(rules) {
        Ok(None)
    } else {
        match weight_sums(rules, fired, rules.len()) {
            None => Err(EngineError::Overflow),
            Some((total, hit)) => if dv_eq(total, int_dv(0)) || dv_eq(hit, int_dv(0)) {
                Ok(None)
            } else {
                match decimal_checked_div(hit, total) {
                    None => Err(EngineError::Overflow),
                    Some(q) => {
                        let strength = round_dp_spec(q, 6);
                        match decimal_checked_mul(strength, int_dv(100)) {
                            None => Err(EngineError::Overflow),
                            Some(pct) => Ok(
                                Some(
                                    (
                                        if dv_le(int_dv(0), ind.pct_change@) {
                                            Side::Buy
                                        } else {
                                            Side::Sell
                                        },
                                        ind.price@,
                                        strength,
                                        "Fired rules: "@ + join_spec(fired_names(rules, fired, rules.len()), ", "@)
                                            + " (strength "@ + decimal_text_prec(pct, 2) + "%)"@,
                                    ),
                                ),
                            ),
                        }
                    },
                }
            },
        }
    }
}

pub open spec fn signal_view(r: Result<Option<WindowSignal>, EngineError>) -> Result<
    Option<(Side, DecV, DecV, Seq<char>)>,
    EngineError,
> {
    match r {
        Ok(Some(s)) => Ok(Some((s.side, s.price@, s.strength@, s.rationale@))),
        Ok(None) => Ok(None),
        Err(e) => Err(e),
    }
}

/// Every enabled rule weighs zero or more.
pub open spec fn weights_nonneg(rules: Seq<Rule>) -> bool {
    forall|k: int| 0 <= k < rules.len() && (#[trigger] rules[k]).enabled ==> dv_le(int_dv(0), rules[k].weight@)
}

/// Every addition of the first `n` rules' weights into the sums is exact.
pub open spec fn sums_exact(rules: Seq<Rule>, fired: Seq<bool>, n: nat) -> bool
    decreases n,
{
    if n == 0 {
        true
    } else {
        &&& sums_exact(rules, fired, (n - 1) as nat)
        &&& match weight_sums(rules, fired, (n - 1) as nat) {
            None => true,
            Some((total, hit)) => rules[n - 1].enabled ==> {
                &&& dv_wf(exact_sum(total, rules[n - 1].weight@))
                &&& (fires(rules, fired, n - 1) ==> dv_wf(exact_sum(hit, rules[n - 1].weight@)))
            },
        }
    }
}

/// Adding a non-negative weight keeps the fired sum between zero and the
/// total.
proof fn lemma_sums_step(h: DecV, t: DecV, w: DecV, h2: DecV, t2: DecV, hit_too: bool)
    requires
        dv_le(int_dv(0), h),
        dv_le(h, t),
        dv_le(int_dv(0), w),
        dv_eq(t2, exact_sum(t, w)),
        hit_too ==> dv_eq(h2, exact_sum(h, w)),
        !hit_too ==> h2 == h,
    ensures
        dv_le(int_dv(0), h2),
        dv_le(h2, t2),
{
    let z = int_dv(0);
    let k = h.2 + t.2 + w.2 + h2.2 + t2.2;
    crate::decimal::lemma_exact_sum_at(t, w, k);
    crate::decimal::lemma_exact_sum_at(h, w, k);
    crate::decimal::lemma_compare_at(z, h, k);
    crate::decimal::lemma_compare_at(h, t, k);
    crate::decimal::lemma_compare_at(z, w, k);
    crate::decimal::lemma_compare_at(t2, exact_sum(t, w), k);
    crate::decimal::lemma_compare_at(h2, exact_sum(h, w), k);
    crate::decimal::lemma_compare_at(z, h2, k);
    crate::decimal::lemma_compare_at(h2, t2, k);
    assert(crate::decimal::at_scale(z, k) == 0) by (nonlinear_arith)
        requires
            crate::decimal::dv_num(z) == 0,
            crate::decimal::at_scale(z, k) == crate::decimal::dv_num(z) * crate::decimal::pow10(
                (k - z.2) as nat,
            ),
    ;
}

pub open spec fn rules_weights_wf(rules: Seq<Rule>) -> bool {
    forall|k: int| 0 <= k < rules.len() ==> (#[trigger] rules[k]).weight.wf()
}

/// The fired weight is at least a millionth of the enabled total, so that
/// the share survives rounding to six decimals.
pub open spec fn share_visible(rules: Seq<Rule>, fired: Seq<bool>) -> bool {
    match weight_sums(rules, fired, rules.len()) {
        Some((total, hit)) => dv_le(total, exact_product(hit, int_dv(1000000))),
        None => false,
    }
}

/// Evaluates the rules on one bar; `fired[k]` tells whether rule `k`'s
/// expression evaluated to true (a missing entry counts as not fired).
pub fn evaluate_at(rules: &Vec<Rule>, fired: &Vec<bool>, ind: &Indicators) -> (r: Result<
    Option<WindowSignal>,
    EngineError,
>)
    requires
        rules_weights_wf(rules@),
        ind.wf(),
    ensures
        signal_view(r) == signal_spec(rules@, fired@, *ind),
        r matches Ok(Some(s)) ==> s.price.wf() && s.strength.wf(),
        weights_nonneg(rules@) && sums_exact(rules@, fired@, rules@.len()) ==> (r matches Ok(Some(s)) ==> dv_le(
            int_dv(0),
            s.strength@,
        ) && dv_le(s.strength@, int_dv(1))),
        weights_nonneg(rules@) && sums_exact(rules@, fired@, rules@.len()) && share_visible(rules@, fired@) ==> (r matches Ok(
            Some(s),
        ) ==> dv_le(scaled_dv(1, 6), s.strength@) && dv_lt(int_dv(0), s.strength@)),
{
    let n = rules.len();
    let mut any = false;
    let mut total = Dec::zero();
    let mut hit = Dec::zero();
    let mut names: Vec<String> = Vec::new();
    let mut k: usize = 0;
    while k < n
        invariant
            n == rules@.len(),
            k <= n,
            rules_weights_wf(rules@),
            total.wf(),
            hit.wf(),
            weight_sums(rules@, fired@, k as nat) == Some((total@, hit@)),
            texts(names@) == fired_names(rules@, fired@, k as nat),
            any <==> exists|j: int| 0 <= j < k && #[trigger] rules@[j].enabled,
            weights_nonneg(rules@) && sums_exact(rules@, fired@, k as nat) ==> dv_le(int_dv(0), hit@) && dv_le(
                hit@,
                total@,
            ),
        decreases n - k,
    {
        let r = &rules[k];
        assert(rules@[k as int].weight.wf());
        let ghost h0 = hit@;
        let ghost t0 = total@;
        if r.enabled {
            any = true;
            total = match total.add(&r.weight) {
                Some(x) => x,
                None => {
                    proof {
                        lemma_sums_none(rules@, fired@, (k + 1) as nat, n as nat);
                    }
                    return Err(EngineError::Overflow);
                },
            };
            let f = k < fired.len() && fired[k];
            if f {
                hit = match hit.add(&r.weight) {
                    Some(x) => x,
                    None => {
                        proof {
                            lemma_sums_none(rules@, fired@, (k + 1) as nat, n as nat);
                        }
                        return Err(EngineError::Overflow);
                    },
                };
                let ghost before = texts(names@);
                names.push(r.name.clone());
                assert(texts(names@) =~= before.push(r.name@));
            }
        }
        proof {
            if weights_nonneg(rules@) && sums_exact(rules@, fired@, (k + 1) as nat) {
                assert(sums_exact(rules@, fired@, k as nat));
                if rules@[k as int].enabled {
                    lemma_sums_step(h0, t0, rules@[k as int].weight@, hit@, total@, fires(rules@, fired@, k as int));
                }
            }
        }
        k = k + 1;
    }
    if !any {
        return Ok(None);
    }
    assert(any_enabled(rules@));
    if total.eq(&Dec::zero()) || hit.eq(&Dec::zero()) {
        return Ok(None);
    }
    let q = match hit.div(&total) {
        Some(q) => q,
        None => {
            return Err(EngineError::Overflow);
        },
    };
    proof {
        if weights_nonneg(rules@) && sums_exact(rules@, fired@, rules@.len()) {
            crate::decimal::lemma_eq_le(int_dv(0), int_dv(0), total@);
            assert(dv_lt(int_dv(0), total@)) by {
                let kk = hit@.2 + total@.2;
                crate::decimal::lemma_compare_at(int_dv(0), total@, kk);
                crate::decimal::lemma_compare_at(total@, int_dv(0), kk);
                crate::decimal::lemma_compare_at(int_dv(0), hit@, kk);
                crate::decimal::lemma_compare_at(hit@, total@, kk);
            }
            crate::decimal::lemma_round6_unit(q@);
            if share_visible(rules@, fired@) {
                assert(dv_lt(int_dv(0), hit@)) by {
                    crate::decimal::lemma_compare_at(int_dv(0), hit@, hit@.2);
                    crate::decimal::lemma_compare_at(hit@, int_dv(0), hit@.2);
                }
                crate::decimal::lemma_round6_floor(q@);
            }
        }
    }
    let strength = q.round_dp(6);
    let pct = match strength.mul(&Dec::from_i64(100)) {
        Some(p) => p,
        None => {
            return Err(EngineError::Overflow);
        },
    };
    let side = if Dec::zero().le(&ind.pct_change) {
        Side::Buy
    } else {
        Side::Sell
    };
    let mut rationale = String::from_str("Fired rules: ");
    rationale.append(join(&names, ", ").as_str());
    rationale.append(" (strength ");
    rationale.append(pct.to_text_prec(2).as_str());
    rationale.append("%)");
    Ok(Some(WindowSignal { side, price: ind.price, strength, rationale }))
}

proof fn lemma_sums_none(rules: Seq<Rule>, fired: Seq<bool>, k: nat, n: nat)
    requires
        k <= n,
        weight_sums(rules, fired, k) is None,
    ensures
        weight_sums(rules, fired, n) is None,
    decreases n - k,
{
    if k < n {
        lemma_sums_none(rules, fired, k + 1, n);
    }
}

/// Candles fetched to evaluate a strategy.
pub const STRATEGY_CANDLES: usize = 250;

/// The strategy's first symbol, empty when it has none.
pub open spec fn first_symbol(s: Strategy) -> Seq<char> {
    if s.symbols@.len() > 0 {
        s.symbols@[0]@
    } else {
        Seq::empty()
    }
}

/// The symbol a strategy is evaluated on: its first one; `None` (no signal,
/// nothing fetched) when that is missing or empty.
pub fn strategy_symbol(strategy: &Strategy) -> (r: Option<String>)
    ensures
        first_symbol(*strategy).len() == 0 ==> r is None,
        first_symbol(*strategy).len() > 0 ==> (r matches Some(x) && x@ == first_symbol(*strategy)),
{
    if strategy.symbols.len() == 0 {
        return None;
    }
    let s = strategy.symbols[0].clone();
    if s.unicode_len() == 0 {
        None
    } else {
        Some(s)
    }
}

/// A strategy's signal on the latest data: none when no candles came back,
/// otherwise `evaluate_at` on the latest bar's indicators.
pub fn evaluate_strategy(candle_count: usize, rules: &Vec<Rule>, fired: &Vec<bool>, ind: &Indicators) -> (r: Result<
    Option<WindowSignal>,
    EngineError,
>)
    requires
        rules_weights_wf(rules@),
        ind.wf(),
    ensures
        candle_count == 0 ==> r == Ok::<Option<WindowSignal>, EngineError>(None),
        candle_count > 0 ==> signal_view(r) == signal_spec(rules@, fired@, *ind),
{
    if candle_count == 0 {
        return Ok(None);
    }
    evaluate_at(rules, fired, ind)
}

} // verus!
