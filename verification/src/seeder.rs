//! The strategies and notes a new installation starts with.
use crate::decimal::{digits_number, dv_lt, int_dv, parse_exact, plain_decimal, point_index, Dec, DecV};
use crate::domain::{AssetClass, CreateNote, CreateRule, CreateStrategy};
use vstd::prelude::*;

verus! {

/// `Decimal::from_str_exact(s).unwrap()` on a plain literal.
fn dec(s: &str) -> (r: Dec)
    requires
        plain_decimal(s@) is Some,
    ensures
        r.wf(),
        r@ == plain_decimal(s@).unwrap(),
{
    match parse_exact(s) {
        Some(d) => d,
        None => Dec::zero(),
    }
}

proof fn lemma_literal_0_01()
    ensures
        plain_decimal("0.01"@) == Some((false, 1nat, 2nat)),
{
    reveal_strlit("0.01");
    let s = "0.01"@;
    assert(s =~= seq!['0', '.', '0', '1']);
    reveal_with_fuel(point_index, 5);
    assert(point_index(s) == 1);
    let d = s.take(1) + s.skip(2);
    assert(d =~= seq!['0', '0', '1']);
    reveal_with_fuel(digits_number, 4);
    assert(digits_number(d) == 1);
}

proof fn lemma_literal_0_02()
    ensures
        plain_decimal("0.02"@) == Some((false, 2nat, 2nat)),
{
    reveal_strlit("0.02");
    let s = "0.02"@;
    assert(s =~= seq!['0', '.', '0', '2']);
    reveal_with_fuel(point_index, 5);
    assert(point_index(s) == 1);
    let d = s.take(1) + s.skip(2);
    assert(d =~= seq!['0', '0', '2']);
    reveal_with_fuel(digits_number, 4);
    assert(digits_number(d) == 2);
}

proof fn lemma_literal_1()
    ensures
        plain_decimal("1"@) == Some((false, 1nat, 0nat)),
{
    reveal_strlit("1");
    let s = "1"@;
    assert(s =~= seq!['1']);
    reveal_with_fuel(point_index, 2);
    assert(point_index(s) == -1);
    reveal_with_fuel(digits_number, 2);
    assert(digits_number(s) == 1);
}

proof fn lemma_literal_1_5()
    ensures
        plain_decimal("1.5"@) == Some((false, 15nat, 1nat)),
{
    reveal_strlit("1.5");
    let s = "1.5"@;
    assert(s =~= seq!['1', '.', '5']);
    reveal_with_fuel(point_index, 4);
    assert(point_index(s) == 1);
    let d = s.take(1) + s.skip(2);
    assert(d =~= seq!['1', '5']);
    reveal_with_fuel(digits_number, 3);
    assert(digits_number(d) == 15);
}

proof fn lemma_literal_100()
    ensures
        plain_decimal("100"@) == Some((false, 100nat, 0nat)),
{
    reveal_strlit("100");
    let s = "100"@;
    assert(s =~= seq!['1', '0', '0']);
    reveal_with_fuel(point_index, 4);
    assert(point_index(s) == -1);
    reveal_with_fuel(digits_number, 4);
    assert(digits_number(s) == 100);
}

proof fn lemma_literal_2()
    ensures
        plain_decimal("2"@) == Some((false, 2nat, 0nat)),
{
    reveal_strlit("2");
    let s = "2"@;
    assert(s =~= seq!['2']);
    reveal_with_fuel(point_index, 2);
    assert(point_index(s) == -1);
    reveal_with_fuel(digits_number, 2);
    assert(digits_number(s) == 2);
}

proof fn lemma_literal_2_5()
    ensures
        plain_decimal("2.5"@) == Some((false, 25nat, 1nat)),
{
    reveal_strlit("2.5");
    let s = "2.5"@;
    assert(s =~= seq!['2', '.', '5']);
    reveal_with_fuel(point_index, 4);
    assert(point_index(s) == 1);
    let d = s.take(1) + s.skip(2);
    assert(d =~= seq!['2', '5']);
    reveal_with_fuel(digits_number, 3);
    assert(digits_number(d) == 25);
}

proof fn lemma_literal_20()
    ensures
        plain_decimal("20"@) == Some((false, 20nat, 0nat)),
{
    reveal_strlit("20");
    let s = "20"@;
    assert(s =~= seq!['2', '0']);
    reveal_with_fuel(point_index, 3);
    assert(point_index(s) == -1);
    reveal_with_fuel(digits_number, 3);
    assert(digits_number(s) == 20);
}

proof fn lemma_literal_25()
    ensures
        plain_decimal("25"@) == Some((false, 25nat, 0nat)),
{
    reveal_strlit("25");
    let s = "25"@;
    assert(s =~= seq!['2', '5']);
    reveal_with_fuel(point_index, 3);
    assert(point_index(s) == -1);
    reveal_with_fuel(digits_number, 3);
    assert(digits_number(s) == 25);
}

proof fn lemma_literal_30()
    ensures
        plain_decimal("30"@) == Some((false, 30nat, 0nat)),
{
    reveal_strlit("30");
    let s = "30"@;
    assert(s =~= seq!['3', '0']);
    reveal_with_fuel(point_index, 3);
    assert(point_index(s) == -1);
    reveal_with_fuel(digits_number, 3);
    assert(digits_number(s) == 30);
}

proof fn lemma_literal_35()
    ensures
        plain_decimal("35"@) == Some((false, 35nat, 0nat)),
{
    reveal_strlit("35");
    let s = "35"@;
    assert(s =~= seq!['3', '5']);
    reveal_with_fuel(point_index, 3);
    assert(point_index(s) == -1);
    reveal_with_fuel(digits_number, 3);
    assert(digits_number(s) == 35);
}

proof fn lemma_literal_40()
    ensures
        plain_decimal("40"@) == Some((false, 40nat, 0nat)),
{
    reveal_strlit("40");
    let s = "40"@;
    assert(s =~= seq!['4', '0']);
    reveal_with_fuel(point_index, 3);
    assert(point_index(s) == -1);
    reveal_with_fuel(digits_number, 3);
    assert(digits_number(s) == 40);
}

proof fn lemma_literal_45()
    ensures
        plain_decimal("45"@) == Some((false, 45nat, 0nat)),
{
    reveal_strlit("45");
    let s = "45"@;
    assert(s =~= seq!['4', '5']);
    reveal_with_fuel(point_index, 3);
    assert(point_index(s) == -1);
    reveal_with_fuel(digits_number, 3);
    assert(digits_number(s) == 45);
}

proof fn lemma_literal_50()
    ensures
        plain_decimal("50"@) == Some((false, 50nat, 0nat)),
{
    reveal_strlit("50");
    let s = "50"@;
    assert(s =~= seq!['5', '0']);
    reveal_with_fuel(point_index, 3);
    assert(point_index(s) == -1);
    reveal_with_fuel(digits_number, 3);
    assert(digits_number(s) == 50);
}

proof fn lemma_literal_60()
    ensures
        plain_decimal("60"@) == Some((false, 60nat, 0nat)),
{
    reveal_strlit("60");
    let s = "60"@;
    assert(s =~= seq!['6', '0']);
    reveal_with_fuel(point_index, 3);
    assert(point_index(s) == -1);
    reveal_with_fuel(digits_number, 3);
    assert(digits_number(s) == 60);
}

proof fn lemma_literal_70()
    ensures
        plain_decimal("70"@) == Some((false, 70nat, 0nat)),
{
    reveal_strlit("70");
    let s = "70"@;
    assert(s =~= seq!['7', '0']);
    reveal_with_fuel(point_index, 3);
    assert(point_index(s) == -1);
    reveal_with_fuel(digits_number, 3);
    assert(digits_number(s) == 70);
}

proof fn lemma_literal_80()
    ensures
        plain_decimal("80"@) == Some((false, 80nat, 0nat)),
{
    reveal_strlit("80");
    let s = "80"@;
    assert(s =~= seq!['8', '0']);
    reveal_with_fuel(point_index, 3);
    assert(point_index(s) == -1);
    reveal_with_fuel(digits_number, 3);
    assert(digits_number(s) == 80);
}

proof fn lemma_literal_90()
    ensures
        plain_decimal("90"@) == Some((false, 90nat, 0nat)),
{
    reveal_strlit("90");
    let s = "90"@;
    assert(s =~= seq!['9', '0']);
    reveal_with_fuel(point_index, 3);
    assert(point_index(s) == -1);
    reveal_with_fuel(digits_number, 3);
    assert(digits_number(s) == 90);
}

pub open spec fn rule_is(r: CreateRule, name: Seq<char>, expr: Seq<char>, weight: DecV) -> bool {
    r.name@ == name && r.expr@ == expr && r.weight@ == weight
}

fn rule(name: &str, expr: &str, weight: &str) -> (r: CreateRule)
    requires
        plain_decimal(weight@) is Some,
    ensures
        rule_is(r, name@, expr@, plain_decimal(weight@).unwrap()),
        r.weight.wf(),
{
    CreateRule { name: String::from_str(name), expr: String::from_str(expr), weight: dec(weight) }
}

/// A single-symbol strategy with the given stop and target (pips or points)
/// and risk per trade.
pub open spec fn strategy_is(
    s: CreateStrategy,
    name: Seq<char>,
    description: Seq<char>,
    class: AssetClass,
    symbol: Seq<char>,
    stop: DecV,
    target: DecV,
    risk: DecV,
) -> bool {
    &&& s.name@ == name
    &&& s.description matches Some(d) && d@ == description
    &&& s.asset_class == class
    &&& s.symbols@.len() == 1
    &&& s.symbols@[0]@ == symbol
    &&& s.stop_loss matches Some(x) && x@ == stop
    &&& s.take_profit matches Some(x) && x@ == target
    &&& s.risk_per_trade@ == risk
}

fn strategy(
    name: &str,
    description: &str,
    class: AssetClass,
    symbol: &str,
    stop: &str,
    target: &str,
    risk: &str,
    rules: Vec<CreateRule>,
) -> (r: CreateStrategy)
    requires
        plain_decimal(stop@) is Some,
        plain_decimal(target@) is Some,
        plain_decimal(risk@) is Some,
    ensures
        strategy_is(
            r,
            name@,
            description@,
            class,
            symbol@,
            plain_decimal(stop@).unwrap(),
            plain_decimal(target@).unwrap(),
            plain_decimal(risk@).unwrap(),
        ),
        r.rules == rules,
{
    let mut symbols: Vec<String> = Vec::new();
    symbols.push(String::from_str(symbol));
    CreateStrategy {
        name: String::from_str(name),
        description: Some(String::from_str(description)),
        asset_class: class,
        symbols,
        stop_loss: Some(dec(stop)),
        take_profit: Some(dec(target)),
        risk_per_trade: dec(risk),
        rules,
    }
}

fn strategy_1() -> (r: CreateStrategy)
    ensures
        strategy_is(r, "RSI Oversold Reversal"@, "Classic mean-reversion: buy when RSI drops below 30 (oversold) and price is above the 200 EMA (long-term uptrend). Exits via 30-pip stop, 60-pip target."@, AssetClass::Forex, "frxEURUSD"@, (false, 30nat, 0nat), (false, 60nat, 0nat), (false, 1nat, 2nat)),
        r.rules@.len() == 2,
        rule_is(r.rules@[0], "rsi_oversold"@, "rsi(14) < 30"@, (false, 2nat, 0nat)),
        rule_is(r.rules@[1], "uptrend_filter"@, "price > ema(200)"@, (false, 1nat, 0nat)),
{
    proof {
        lemma_literal_0_01();
        lemma_literal_1();
        lemma_literal_2();
        lemma_literal_30();
        lemma_literal_60();
    }
    let mut rules: Vec<CreateRule> = Vec::new();
    rules.push(rule("rsi_oversold", "rsi(14) < 30", "2"));
    rules.push(rule("uptrend_filter", "price > ema(200)", "1"));
    strategy(
        "RSI Oversold Reversal",
        "Classic mean-reversion: buy when RSI drops below 30 (oversold) and price is above the 200 EMA (long-term uptrend). Exits via 30-pip stop, 60-pip target.",
        AssetClass::Forex,
        "frxEURUSD",
        "30",
        "60",
        "0.01",
        rules,
    )
}

fn strategy_2() -> (r: CreateStrategy)
    ensures
        strategy_is(r, "Hammer Candle Reversal"@, "Bullish hammer pattern at support with RSI confirmation. The hammer shows buyers stepped in after selling pressure — a classic bottom reversal signal."@, AssetClass::Forex, "frxEURUSD"@, (false, 25nat, 0nat), (false, 50nat, 0nat), (false, 1nat, 2nat)),
        r.rules@.len() == 3,
        rule_is(r.rules@[0], "hammer_pattern"@, "hammer == 1"@, (false, 2nat, 0nat)),
        rule_is(r.rules@[1], "rsi_oversold"@, "rsi(14) < 40"@, (false, 15nat, 1nat)),
        rule_is(r.rules@[2], "trend"@, "price > ema(50)"@, (false, 1nat, 0nat)),
{
    proof {
        lemma_literal_0_01();
        lemma_literal_1();
        lemma_literal_1_5();
        lemma_literal_2();
        lemma_literal_25();
        lemma_literal_50();
    }
    let mut rules: Vec<CreateRule> = Vec::new();
    rules.push(rule("hammer_pattern", "hammer == 1", "2"));
    rules.push(rule("rsi_oversold", "rsi(14) < 40", "1.5"));
    rules.push(rule("trend", "price > ema(50)", "1"));
    strategy(
        "Hammer Candle Reversal",
        "Bullish hammer pattern at support with RSI confirmation. The hammer shows buyers stepped in after selling pressure — a classic bottom reversal signal.",
        AssetClass::Forex,
        "frxEURUSD",
        "25",
        "50",
        "0.01",
        rules,
    )
}

fn strategy_3() -> (r: CreateStrategy)
    ensures
        strategy_is(r, "Bullish Engulfing + MACD"@, "Bullish engulfing candlestick pattern confirmed by positive MACD momentum. The engulfing pattern shows strong buying pressure overpowering sellers."@, AssetClass::Forex, "frxGBPUSD"@, (false, 30nat, 0nat), (false, 60nat, 0nat), (false, 1nat, 2nat)),
        r.rules@.len() == 2,
        rule_is(r.rules@[0], "engulfing"@, "bullish_engulfing == 1"@, (false, 2nat, 0nat)),
        rule_is(r.rules@[1], "macd_positive"@, "macd() > 0"@, (false, 15nat, 1nat)),
{
    proof {
        lemma_literal_0_01();
        lemma_literal_1_5();
        lemma_literal_2();
        lemma_literal_30();
        lemma_literal_60();
    }
    let mut rules: Vec<CreateRule> = Vec::new();
    rules.push(rule("engulfing", "bullish_engulfing == 1", "2"));
    rules.push(rule("macd_positive", "macd() > 0", "1.5"));
    strategy(
        "Bullish Engulfing + MACD",
        "Bullish engulfing candlestick pattern confirmed by positive MACD momentum. The engulfing pattern shows strong buying pressure overpowering sellers.",
        AssetClass::Forex,
        "frxGBPUSD",
        "30",
        "60",
        "0.01",
        rules,
    )
}

fn strategy_4() -> (r: CreateStrategy)
    ensures
        strategy_is(r, "Doji Reversal"@, "Doji candlestick (indecision) with RSI oversold. A doji after a downtrend suggests sellers are losing control and a reversal may be imminent."@, AssetClass::Forex, "frxEURUSD"@, (false, 20nat, 0nat), (false, 40nat, 0nat), (false, 1nat, 2nat)),
        r.rules@.len() == 2,
        rule_is(r.rules@[0], "doji"@, "doji == 1"@, (false, 2nat, 0nat)),
        rule_is(r.rules@[1], "rsi"@, "rsi(14) < 40"@, (false, 1nat, 0nat)),
{
    proof {
        lemma_literal_0_01();
        lemma_literal_1();
        lemma_literal_2();
        lemma_literal_20();
        lemma_literal_40();
    }
    let mut rules: Vec<CreateRule> = Vec::new();
    rules.push(rule("doji", "doji == 1", "2"));
    rules.push(rule("rsi", "rsi(14) < 40", "1"));
    strategy(
        "Doji Reversal",
        "Doji candlestick (indecision) with RSI oversold. A doji after a downtrend suggests sellers are losing control and a reversal may be imminent.",
        AssetClass::Forex,
        "frxEURUSD",
        "20",
        "40",
        "0.01",
        rules,
    )
}

fn strategy_5() -> (r: CreateStrategy)
    ensures
        strategy_is(r, "EMA Trend Following"@, "Trend-following: buy when price is above both EMA50 and EMA200 (golden trend). Uses wide stops for trend riding."@, AssetClass::Forex, "frxEURUSD"@, (false, 40nat, 0nat), (false, 80nat, 0nat), (false, 1nat, 2nat)),
        r.rules@.len() == 3,
        rule_is(r.rules@[0], "above_ema50"@, "price > ema(50)"@, (false, 15nat, 1nat)),
        rule_is(r.rules@[1], "above_ema200"@, "price > ema(200)"@, (false, 15nat, 1nat)),
        rule_is(r.rules@[2], "macd_positive"@, "macd() > 0"@, (false, 1nat, 0nat)),
{
    proof {
        lemma_literal_0_01();
        lemma_literal_1();
        lemma_literal_1_5();
        lemma_literal_40();
        lemma_literal_80();
    }
    let mut rules: Vec<CreateRule> = Vec::new();
    rules.push(rule("above_ema50", "price > ema(50)", "1.5"));
    rules.push(rule("above_ema200", "price > ema(200)", "1.5"));
    rules.push(rule("macd_positive", "macd() > 0", "1"));
    strategy(
        "EMA Trend Following",
        "Trend-following: buy when price is above both EMA50 and EMA200 (golden trend). Uses wide stops for trend riding.",
        AssetClass::Forex,
        "frxEURUSD",
        "40",
        "80",
        "0.01",
        rules,
    )
}

fn strategy_6() -> (r: CreateStrategy)
    ensures
        strategy_is(r, "R_100 Hammer Reversal"@, "Bullish hammer pattern on the Volatility 100 Index with RSI oversold confirmation. Synthetic indices trend well and hammers mark reliable reversal points."@, AssetClass::DerivIndex, "R_100"@, (false, 50nat, 0nat), (false, 100nat, 0nat), (false, 2nat, 2nat)),
        r.rules@.len() == 3,
        rule_is(r.rules@[0], "hammer"@, "hammer == 1"@, (false, 2nat, 0nat)),
        rule_is(r.rules@[1], "rsi"@, "rsi(14) < 35"@, (false, 15nat, 1nat)),
        rule_is(r.rules@[2], "trend"@, "price > ema(50)"@, (false, 1nat, 0nat)),
{
    proof {
        lemma_literal_0_02();
        lemma_literal_1();
        lemma_literal_1_5();
        lemma_literal_100();
        lemma_literal_2();
        lemma_literal_50();
    }
    let mut rules: Vec<CreateRule> = Vec::new();
    rules.push(rule("hammer", "hammer == 1", "2"));
    rules.push(rule("rsi", "rsi(14) < 35", "1.5"));
    rules.push(rule("trend", "price > ema(50)", "1"));
    strategy(
        "R_100 Hammer Reversal",
        "Bullish hammer pattern on the Volatility 100 Index with RSI oversold confirmation. Synthetic indices trend well and hammers mark reliable reversal points.",
        AssetClass::DerivIndex,
        "R_100",
        "50",
        "100",
        "0.02",
        rules,
    )
}

fn strategy_7() -> (r: CreateStrategy)
    ensures
        strategy_is(r, "R_75 Bullish Engulfing"@, "Bullish engulfing pattern on Volatility 75 Index with RSI and trend filter. V75 is less volatile than V100, giving cleaner signals."@, AssetClass::DerivIndex, "R_75"@, (false, 30nat, 0nat), (false, 60nat, 0nat), (false, 2nat, 2nat)),
        r.rules@.len() == 3,
        rule_is(r.rules@[0], "engulfing"@, "bullish_engulfing == 1"@, (false, 2nat, 0nat)),
        rule_is(r.rules@[1], "rsi"@, "rsi(14) < 40"@, (false, 1nat, 0nat)),
        rule_is(r.rules@[2], "trend"@, "price > ema(50)"@, (false, 1nat, 0nat)),
{
    proof {
        lemma_literal_0_02();
        lemma_literal_1();
        lemma_literal_2();
        lemma_literal_30();
        lemma_literal_60();
    }
    let mut rules: Vec<CreateRule> = Vec::new();
    rules.push(rule("engulfing", "bullish_engulfing == 1", "2"));
    rules.push(rule("rsi", "rsi(14) < 40", "1"));
    rules.push(rule("trend", "price > ema(50)", "1"));
    strategy(
        "R_75 Bullish Engulfing",
        "Bullish engulfing pattern on Volatility 75 Index with RSI and trend filter. V75 is less volatile than V100, giving cleaner signals.",
        AssetClass::DerivIndex,
        "R_75",
        "30",
        "60",
        "0.02",
        rules,
    )
}

fn strategy_8() -> (r: CreateStrategy)
    ensures
        strategy_is(r, "Three White Soldiers"@, "Three consecutive bullish candles with higher closes — a strong bottom reversal signal. Combined with EMA trend filter for confirmation."@, AssetClass::DerivIndex, "R_100"@, (false, 40nat, 0nat), (false, 80nat, 0nat), (false, 2nat, 2nat)),
        r.rules@.len() == 2,
        rule_is(r.rules@[0], "soldiers"@, "three_white_soldiers == 1"@, (false, 25nat, 1nat)),
        rule_is(r.rules@[1], "trend"@, "price > ema(200)"@, (false, 1nat, 0nat)),
{
    proof {
        lemma_literal_0_02();
        lemma_literal_1();
        lemma_literal_2_5();
        lemma_literal_40();
        lemma_literal_80();
    }
    let mut rules: Vec<CreateRule> = Vec::new();
    rules.push(rule("soldiers", "three_white_soldiers == 1", "2.5"));
    rules.push(rule("trend", "price > ema(200)", "1"));
    strategy(
        "Three White Soldiers",
        "Three consecutive bullish candles with higher closes — a strong bottom reversal signal. Combined with EMA trend filter for confirmation.",
        AssetClass::DerivIndex,
        "R_100",
        "40",
        "80",
        "0.02",
        rules,
    )
}

fn strategy_9() -> (r: CreateStrategy)
    ensures
        strategy_is(r, "R_100 Bearish Engulfing Short"@, "Bearish engulfing pattern with overbought RSI — a top reversal signal for shorting. Synthetic indices reverse sharply after overbought conditions."@, AssetClass::DerivIndex, "R_100"@, (false, 40nat, 0nat), (false, 80nat, 0nat), (false, 2nat, 2nat)),
        r.rules@.len() == 2,
        rule_is(r.rules@[0], "bear_engulfing"@, "bearish_engulfing == 1"@, (false, 2nat, 0nat)),
        rule_is(r.rules@[1], "rsi_overbought"@, "rsi(14) > 65"@, (false, 15nat, 1nat)),
{
    proof {
        lemma_literal_0_02();
        lemma_literal_1_5();
        lemma_literal_2();
        lemma_literal_40();
        lemma_literal_80();
    }
    let mut rules: Vec<CreateRule> = Vec::new();
    rules.push(rule("bear_engulfing", "bearish_engulfing == 1", "2"));
    rules.push(rule("rsi_overbought", "rsi(14) > 65", "1.5"));
    strategy(
        "R_100 Bearish Engulfing Short",
        "Bearish engulfing pattern with overbought RSI — a top reversal signal for shorting. Synthetic indices reverse sharply after overbought conditions.",
        AssetClass::DerivIndex,
        "R_100",
        "40",
        "80",
        "0.02",
        rules,
    )
}

fn strategy_10() -> (r: CreateStrategy)
    ensures
        strategy_is(r, "Morning Star Reversal"@, "Three-candle morning star pattern — a major bullish reversal signal. The pattern shows a transition from bearishness to bullish indecision to strong buying."@, AssetClass::DerivIndex, "R_75"@, (false, 35nat, 0nat), (false, 70nat, 0nat), (false, 2nat, 2nat)),
        r.rules@.len() == 2,
        rule_is(r.rules@[0], "morning_star"@, "morning_star == 1"@, (false, 25nat, 1nat)),
        rule_is(r.rules@[1], "rsi"@, "rsi(14) < 45"@, (false, 1nat, 0nat)),
{
    proof {
        lemma_literal_0_02();
        lemma_literal_1();
        lemma_literal_2_5();
        lemma_literal_35();
        lemma_literal_70();
    }
    let mut rules: Vec<CreateRule> = Vec::new();
    rules.push(rule("morning_star", "morning_star == 1", "2.5"));
    rules.push(rule("rsi", "rsi(14) < 45", "1"));
    strategy(
        "Morning Star Reversal",
        "Three-candle morning star pattern — a major bullish reversal signal. The pattern shows a transition from bearishness to bullish indecision to strong buying.",
        AssetClass::DerivIndex,
        "R_75",
        "35",
        "70",
        "0.02",
        rules,
    )
}

fn strategy_11() -> (r: CreateStrategy)
    ensures
        strategy_is(r, "Piercing Line Reversal"@, "Piercing line candlestick: a bearish candle followed by a bullish candle that opens below the prior low but closes above the midpoint. Strong bottom reversal signal."@, AssetClass::Forex, "frxEURUSD"@, (false, 25nat, 0nat), (false, 50nat, 0nat), (false, 1nat, 2nat)),
        r.rules@.len() == 2,
        rule_is(r.rules@[0], "piercing"@, "piercing_line == 1"@, (false, 2nat, 0nat)),
        rule_is(r.rules@[1], "rsi"@, "rsi(14) < 40"@, (false, 1nat, 0nat)),
{
    proof {
        lemma_literal_0_01();
        lemma_literal_1();
        lemma_literal_2();
        lemma_literal_25();
        lemma_literal_50();
    }
    let mut rules: Vec<CreateRule> = Vec::new();
    rules.push(rule("piercing", "piercing_line == 1", "2"));
    rules.push(rule("rsi", "rsi(14) < 40", "1"));
    strategy(
        "Piercing Line Reversal",
        "Piercing line candlestick: a bearish candle followed by a bullish candle that opens below the prior low but closes above the midpoint. Strong bottom reversal signal.",
        AssetClass::Forex,
        "frxEURUSD",
        "25",
        "50",
        "0.01",
        rules,
    )
}

fn strategy_12() -> (r: CreateStrategy)
    ensures
        strategy_is(r, "RSI + MACD Momentum"@, "Momentum strategy: RSI recovering from oversold plus positive MACD. Combines two of the most popular indicators for trend confirmation."@, AssetClass::DerivIndex, "R_100"@, (false, 45nat, 0nat), (false, 90nat, 0nat), (false, 2nat, 2nat)),
        r.rules@.len() == 3,
        rule_is(r.rules@[0], "rsi_recovering"@, "rsi(14) > 30 and rsi(14) < 50"@, (false, 15nat, 1nat)),
        rule_is(r.rules@[1], "macd_positive"@, "macd() > 0"@, (false, 15nat, 1nat)),
        rule_is(r.rules@[2], "trend"@, "price > ema(50)"@, (false, 1nat, 0nat)),
{
    proof {
        lemma_literal_0_02();
        lemma_literal_1();
        lemma_literal_1_5();
        lemma_literal_45();
        lemma_literal_90();
    }
    let mut rules: Vec<CreateRule> = Vec::new();
    rules.push(rule("rsi_recovering", "rsi(14) > 30 and rsi(14) < 50", "1.5"));
    rules.push(rule("macd_positive", "macd() > 0", "1.5"));
    rules.push(rule("trend", "price > ema(50)", "1"));
    strategy(
        "RSI + MACD Momentum",
        "Momentum strategy: RSI recovering from oversold plus positive MACD. Combines two of the most popular indicators for trend confirmation.",
        AssetClass::DerivIndex,
        "R_100",
        "45",
        "90",
        "0.02",
        rules,
    )
}

/// Strategy `i` of the built-in set is the documented one.
pub open spec fn seeded_strategy(s: CreateStrategy, i: int) -> bool {
    if i == 0 {
        strategy_is(s, "RSI Oversold Reversal"@, "Classic mean-reversion: buy when RSI drops below 30 (oversold) and price is above the 200 EMA (long-term uptrend). Exits via 30-pip stop, 60-pip target."@, AssetClass::Forex, "frxEURUSD"@, (false, 30nat, 0nat), (false, 60nat, 0nat), (false, 1nat, 2nat))
            && s.rules@.len() == 2
            && rule_is(s.rules@[0], "rsi_oversold"@, "rsi(14) < 30"@, (false, 2nat, 0nat))
            && rule_is(s.rules@[1], "uptrend_filter"@, "price > ema(200)"@, (false, 1nat, 0nat))
    } else if i == 1 {
        strategy_is(s, "Hammer Candle Reversal"@, "Bullish hammer pattern at support with RSI confirmation. The hammer shows buyers stepped in after selling pressure — a classic bottom reversal signal."@, AssetClass::Forex, "frxEURUSD"@, (false, 25nat, 0nat), (false, 50nat, 0nat), (false, 1nat, 2nat))
            && s.rules@.len() == 3
            && rule_is(s.rules@[0], "hammer_pattern"@, "hammer == 1"@, (false, 2nat, 0nat))
            && rule_is(s.rules@[1], "rsi_oversold"@, "rsi(14) < 40"@, (false, 15nat, 1nat))
            && rule_is(s.rules@[2], "trend"@, "price > ema(50)"@, (false, 1nat, 0nat))
    } else if i == 2 {
        strategy_is(s, "Bullish Engulfing + MACD"@, "Bullish engulfing candlestick pattern confirmed by positive MACD momentum. The engulfing pattern shows strong buying pressure overpowering sellers."@, AssetClass::Forex, "frxGBPUSD"@, (false, 30nat, 0nat), (false, 60nat, 0nat), (false, 1nat, 2nat))
            && s.rules@.len() == 2
            && rule_is(s.rules@[0], "engulfing"@, "bullish_engulfing == 1"@, (false, 2nat, 0nat))
            && rule_is(s.rules@[1], "macd_positive"@, "macd() > 0"@, (false, 15nat, 1nat))
    } else if i == 3 {
        strategy_is(s, "Doji Reversal"@, "Doji candlestick (indecision) with RSI oversold. A doji after a downtrend suggests sellers are losing control and a reversal may be imminent."@, AssetClass::Forex, "frxEURUSD"@, (false, 20nat, 0nat), (false, 40nat, 0nat), (false, 1nat, 2nat))
            && s.rules@.len() == 2
            && rule_is(s.rules@[0], "doji"@, "doji == 1"@, (false, 2nat, 0nat))
            && rule_is(s.rules@[1], "rsi"@, "rsi(14) < 40"@, (false, 1nat, 0nat))
    } else if i == 4 {
        strategy_is(s, "EMA Trend Following"@, "Trend-following: buy when price is above both EMA50 and EMA200 (golden trend). Uses wide stops for trend riding."@, AssetClass::Forex, "frxEURUSD"@, (false, 40nat, 0nat), (false, 80nat, 0nat), (false, 1nat, 2nat))
            && s.rules@.len() == 3
            && rule_is(s.rules@[0], "above_ema50"@, "price > ema(50)"@, (false, 15nat, 1nat))
            && rule_is(s.rules@[1], "above_ema200"@, "price > ema(200)"@, (false, 15nat, 1nat))
            && rule_is(s.rules@[2], "macd_positive"@, "macd() > 0"@, (false, 1nat, 0nat))
    } else if i == 5 {
        strategy_is(s, "R_100 Hammer Reversal"@, "Bullish hammer pattern on the Volatility 100 Index with RSI oversold confirmation. Synthetic indices trend well and hammers mark reliable reversal points."@, AssetClass::DerivIndex, "R_100"@, (false, 50nat, 0nat), (false, 100nat, 0nat), (false, 2nat, 2nat))
            && s.rules@.len() == 3
            && rule_is(s.rules@[0], "hammer"@, "hammer == 1"@, (false, 2nat, 0nat))
            && rule_is(s.rules@[1], "rsi"@, "rsi(14) < 35"@, (false, 15nat, 1nat))
            && rule_is(s.rules@[2], "trend"@, "price > ema(50)"@, (false, 1nat, 0nat))
    } else if i == 6 {
        strategy_is(s, "R_75 Bullish Engulfing"@, "Bullish engulfing pattern on Volatility 75 Index with RSI and trend filter. V75 is less volatile than V100, giving cleaner signals."@, AssetClass::DerivIndex, "R_75"@, (false, 30nat, 0nat), (false, 60nat, 0nat), (false, 2nat, 2nat))
            && s.rules@.len() == 3
            && rule_is(s.rules@[0], "engulfing"@, "bullish_engulfing == 1"@, (false, 2nat, 0nat))
            && rule_is(s.rules@[1], "rsi"@, "rsi(14) < 40"@, (false, 1nat, 0nat))
            && rule_is(s.rules@[2], "trend"@, "price > ema(50)"@, (false, 1nat, 0nat))
    } else if i == 7 {
        strategy_is(s, "Three White Soldiers"@, "Three consecutive bullish candles with higher closes — a strong bottom reversal signal. Combined with EMA trend filter for confirmation."@, AssetClass::DerivIndex, "R_100"@, (false, 40nat, 0nat), (false, 80nat, 0nat), (false, 2nat, 2nat))
            && s.rules@.len() == 2
            && rule_is(s.rules@[0], "soldiers"@, "three_white_soldiers == 1"@, (false, 25nat, 1nat))
            && rule_is(s.rules@[1], "trend"@, "price > ema(200)"@, (false, 1nat, 0nat))
    } else if i == 8 {
        strategy_is(s, "R_100 Bearish Engulfing Short"@, "Bearish engulfing pattern with overbought RSI — a top reversal signal for shorting. Synthetic indices reverse sharply after overbought conditions."@, AssetClass::DerivIndex, "R_100"@, (false, 40nat, 0nat), (false, 80nat, 0nat), (false, 2nat, 2nat))
            && s.rules@.len() == 2
            && rule_is(s.rules@[0], "bear_engulfing"@, "bearish_engulfing == 1"@, (false, 2nat, 0nat))
            && rule_is(s.rules@[1], "rsi_overbought"@, "rsi(14) > 65"@, (false, 15nat, 1nat))
    } else if i == 9 {
        strategy_is(s, "Morning Star Reversal"@, "Three-candle morning star pattern — a major bullish reversal signal. The pattern shows a transition from bearishness to bullish indecision to strong buying."@, AssetClass::DerivIndex, "R_75"@, (false, 35nat, 0nat), (false, 70nat, 0nat), (false, 2nat, 2nat))
            && s.rules@.len() == 2
            && rule_is(s.rules@[0], "morning_star"@, "morning_star == 1"@, (false, 25nat, 1nat))
            && rule_is(s.rules@[1], "rsi"@, "rsi(14) < 45"@, (false, 1nat, 0nat))
    } else if i == 10 {
        strategy_is(s, "Piercing Line Reversal"@, "Piercing line candlestick: a bearish candle followed by a bullish candle that opens below the prior low but closes above the midpoint. Strong bottom reversal signal."@, AssetClass::Forex, "frxEURUSD"@, (false, 25nat, 0nat), (false, 50nat, 0nat), (false, 1nat, 2nat))
            && s.rules@.len() == 2
            && rule_is(s.rules@[0], "piercing"@, "piercing_line == 1"@, (false, 2nat, 0nat))
            && rule_is(s.rules@[1], "rsi"@, "rsi(14) < 40"@, (false, 1nat, 0nat))
    } else if i == 11 {
        strategy_is(s, "RSI + MACD Momentum"@, "Momentum strategy: RSI recovering from oversold plus positive MACD. Combines two of the most popular indicators for trend confirmation."@, AssetClass::DerivIndex, "R_100"@, (false, 45nat, 0nat), (false, 90nat, 0nat), (false, 2nat, 2nat))
            && s.rules@.len() == 3
            && rule_is(s.rules@[0], "rsi_recovering"@, "rsi(14) > 30 and rsi(14) < 50"@, (false, 15nat, 1nat))
            && rule_is(s.rules@[1], "macd_positive"@, "macd() > 0"@, (false, 15nat, 1nat))
            && rule_is(s.rules@[2], "trend"@, "price > ema(50)"@, (false, 1nat, 0nat))
    } else {
        false
    }
}

/// The built-in strategies: forex and Deriv-index setups, each with its
/// rules, stop, target and risk.
pub fn builtin_strategies() -> (r: Vec<CreateStrategy>)
    ensures
        r@.len() == 12,
        forall|i: int| 0 <= i < r@.len() ==> seeded_strategy(#[trigger] r@[i], i),
{
    let mut v: Vec<CreateStrategy> = Vec::new();

    v.push(strategy_1());
    v.push(strategy_2());
    v.push(strategy_3());
    v.push(strategy_4());
    v.push(strategy_5());
    v.push(strategy_6());
    v.push(strategy_7());
    v.push(strategy_8());
    v.push(strategy_9());
    v.push(strategy_10());
    v.push(strategy_11());
    v.push(strategy_12());
    assert(seeded_strategy(v@[0], 0));
    v
}

proof fn lemma_positive(w: DecV)
    requires
        !w.0,
        w.1 > 0,
    ensures
        dv_lt(int_dv(0), w),
{
    assert(crate::decimal::pow10(0) == 1);
    assert(0 * crate::decimal::pow10(w.2) == 0);
}

/// Every built-in strategy trades one symbol, a forex pair exactly when its
/// name starts with "frx"; its target is twice its positive stop; it risks
/// 1% per trade on forex and 2% on Deriv indices; and it has rules, all of
/// positive weight.
pub proof fn law_builtin_strategy_shape(s: CreateStrategy, i: int)
    requires
        0 <= i < 12,
        seeded_strategy(s, i),
    ensures
        s.symbols@.len() == 1,
        (s.asset_class == AssetClass::Forex) <==> "frx"@.is_prefix_of(s.symbols@[0]@),
        s.stop_loss matches Some(sl) && s.take_profit matches Some(tp) && !sl@.0 && !tp@.0 && sl@.2 == tp@.2
            && tp@.1 == 2 * sl@.1 && dv_lt(int_dv(0), sl@),
        s.risk_per_trade@ == (if s.asset_class == AssetClass::Forex {
            (false, 1nat, 2nat)
        } else {
            (false, 2nat, 2nat)
        }),
        s.rules@.len() > 0,
        forall|k: int| 0 <= k < s.rules@.len() ==> dv_lt(int_dv(0), #[trigger] s.rules@[k].weight@),
{
    reveal_strlit("frx");
    reveal_strlit("R_100");
    reveal_strlit("R_75");
    reveal_strlit("frxEURUSD");
    reveal_strlit("frxGBPUSD");
    assert("frx"@ =~= seq!['f', 'r', 'x']);
    assert("R_100"@.len() == 5 && "R_100"@[0] == 'R');
    assert("R_75"@.len() == 4 && "R_75"@[0] == 'R');
    assert("frxEURUSD"@.len() == 9 && "frxEURUSD"@[0] == 'f');
    assert("frxGBPUSD"@.len() == 9 && "frxGBPUSD"@[0] == 'f');
    assert forall|k: int| 0 <= k < s.rules@.len() implies dv_lt(int_dv(0), #[trigger] s.rules@[k].weight@) by {
        lemma_positive(s.rules@[k].weight@);
    }
}

/// The built-in strategies have distinct names.
pub proof fn law_builtin_names_distinct(v: Seq<CreateStrategy>)
    requires
        v.len() == 12,
        forall|i: int| 0 <= i < v.len() ==> seeded_strategy(#[trigger] v[i], i),
    ensures
        forall|i: int, j: int| 0 <= i < j < v.len() ==> (#[trigger] v[i]).name@ != (#[trigger] v[j]).name@,
{
    reveal_strlit("RSI Oversold Reversal");
    assert("RSI Oversold Reversal"@.len() == 21 && "RSI Oversold Reversal"@[0] == 'R' && "RSI Oversold Reversal"@[2] == 'I');
    reveal_strlit("Hammer Candle Reversal");
    assert("Hammer Candle Reversal"@.len() == 22 && "Hammer Candle Reversal"@[0] == 'H' && "Hammer Candle Reversal"@[2] == 'm');
    reveal_strlit("Bullish Engulfing + MACD");
    assert("Bullish Engulfing + MACD"@.len() == 24 && "Bullish Engulfing + MACD"@[0] == 'B' && "Bullish Engulfing + MACD"@[2] == 'l');
    reveal_strlit("Doji Reversal");
    assert("Doji Reversal"@.len() == 13 && "Doji Reversal"@[0] == 'D' && "Doji Reversal"@[2] == 'j');
    reveal_strlit("EMA Trend Following");
    assert("EMA Trend Following"@.len() == 19 && "EMA Trend Following"@[0] == 'E' && "EMA Trend Following"@[2] == 'A');
    reveal_strlit("R_100 Hammer Reversal");
    assert("R_100 Hammer Reversal"@.len() == 21 && "R_100 Hammer Reversal"@[0] == 'R' && "R_100 Hammer Reversal"@[2] == '1');
    reveal_strlit("R_75 Bullish Engulfing");
    assert("R_75 Bullish Engulfing"@.len() == 22 && "R_75 Bullish Engulfing"@[0] == 'R' && "R_75 Bullish Engulfing"@[2] == '7');
    reveal_strlit("Three White Soldiers");
    assert("Three White Soldiers"@.len() == 20 && "Three White Soldiers"@[0] == 'T' && "Three White Soldiers"@[2] == 'r');
    reveal_strlit("R_100 Bearish Engulfing Short");
    assert("R_100 Bearish Engulfing Short"@.len() == 29 && "R_100 Bearish Engulfing Short"@[0] == 'R' && "R_100 Bearish Engulfing Short"@[2] == '1');
    reveal_strlit("Morning Star Reversal");
    assert("Morning Star Reversal"@.len() == 21 && "Morning Star Reversal"@[0] == 'M' && "Morning Star Reversal"@[2] == 'r');
    reveal_strlit("Piercing Line Reversal");
    assert("Piercing Line Reversal"@.len() == 22 && "Piercing Line Reversal"@[0] == 'P' && "Piercing Line Reversal"@[2] == 'e');
    reveal_strlit("RSI + MACD Momentum");
    assert("RSI + MACD Momentum"@.len() == 19 && "RSI + MACD Momentum"@[0] == 'R' && "RSI + MACD Momentum"@[2] == 'I');
    assert forall|i: int, j: int| 0 <= i < j < v.len() implies (#[trigger] v[i]).name@ != (#[trigger] v[j]).name@ by {
        assert(seeded_strategy(v[i], i));
        assert(seeded_strategy(v[j], j));
    }
}

pub open spec fn note_is(n: CreateNote, title: Seq<char>, content: Seq<char>) -> bool {
    n.title@ == title && n.content@ == content && n.content_type@ == "markdown"@
}

fn note(title: &str, content: &str) -> (r: CreateNote)
    ensures
        note_is(r, title@, content@),
{
    CreateNote { title: String::from_str(title), content: String::from_str(content), content_type: String::from_str("markdown") }
}

pub open spec fn note_text_1() -> Seq<char> {
    r#"# RSI — Relative Strength Index

RSI measures the speed and change of price movements on a scale of 0-100.

## Key Levels
- **Below 30**: Oversold — price may bounce up (buy signal)
- **Above 70**: Overbought — price may drop (sell signal)
- **50 line**: Midpoint — above 50 is bullish, below is bearish

## How to Trade RSI
1. **Reversal**: Buy when RSI crosses back above 30 from below. Sell when RSI crosses below 70.
2. **Divergence**: If price makes a lower low but RSI makes a higher low, a reversal is likely.
3. **Trend confirmation**: In an uptrend, RSI should stay above 40. In a downtrend, below 60.

## Best Combinations
- RSI + EMA: Confirm RSI signals with trend direction (price above EMA50)
- RSI + MACD: Wait for both to agree before entering
- RSI + Candlestick patterns: A hammer + RSI < 30 is a strong buy signal

## Rule DSL Examples
- `rsi(14) < 30` — oversold
- `rsi(14) > 70` — overbought
- `rsi(14) < 35 and price > ema(50)` — oversold in an uptrend
"#@
}

fn note_1() -> (r: CreateNote)
    ensures
        note_is(r, "RSI (Relative Strength Index) — How to Use It"@, note_text_1()),
{
    note(
        "RSI (Relative Strength Index) — How to Use It",
        r#"# RSI — Relative Strength Index

RSI measures the speed and change of price movements on a scale of 0-100.

## Key Levels
- **Below 30**: Oversold — price may bounce up (buy signal)
- **Above 70**: Overbought — price may drop (sell signal)
- **50 line**: Midpoint — above 50 is bullish, below is bearish

## How to Trade RSI
1. **Reversal**: Buy when RSI crosses back above 30 from below. Sell when RSI crosses below 70.
2. **Divergence**: If price makes a lower low but RSI makes a higher low, a reversal is likely.
3. **Trend confirmation**: In an uptrend, RSI should stay above 40. In a downtrend, below 60.

## Best Combinations
- RSI + EMA: Confirm RSI signals with trend direction (price above EMA50)
- RSI + MACD: Wait for both to agree before entering
- RSI + Candlestick patterns: A hammer + RSI < 30 is a strong buy signal

## Rule DSL Examples
- `rsi(14) < 30` — oversold
- `rsi(14) > 70` — overbought
- `rsi(14) < 35 and price > ema(50)` — oversold in an uptrend
"#,
    )
}

pub open spec fn note_text_2() -> Seq<char> {
    r#"# Candlestick Patterns

Candlesticks show the battle between buyers (bulls) and sellers (bears) in each time period.

## Single-Candle Patterns
- **Hammer**: Small body at top, long lower wick. Bullish reversal at bottoms.
- **Doji**: Open ≈ close. Indecision — potential reversal.
- **Dragonfly Doji**: Doji with long lower wick. Strong bullish signal at bottoms.
- **Gravestone Doji**: Doji with long upper wick. Bearish signal at tops.
- **Shooting Star**: Small body, long upper wick. Bearish reversal at tops.
- **Marubozu**: No wicks. Strong continuation signal.

## Two-Candle Patterns
- **Bullish Engulfing**: Large white candle engulfs prior black candle. Strong buy signal.
- **Bearish Engulfing**: Large black candle engulfs prior white candle. Strong sell signal.
- **Bullish Harami**: Small white candle inside large black candle. Reversal up.
- **Piercing Line**: Opens below prior low, closes above midpoint. Bullish reversal.
- **Dark Cloud Cover**: Opens above prior high, closes below midpoint. Bearish reversal.
- **Tweezer Bottom/Top**: Two candles with matching lows/highs. Minor reversal.

## Three-Candle Patterns
- **Morning Star**: Bearish → small body → bullish. Major bottom reversal.
- **Evening Star**: Bullish → small body → bearish. Major top reversal.
- **Three White Soldiers**: Three bullish candles, higher closes. Strong uptrend.
- **Three Black Crows**: Three bearish candles, lower closes. Strong downtrend.

## Rule DSL Examples
- `hammer == 1` — hammer pattern detected
- `bullish_engulfing == 1` — bullish engulfing detected
- `doji == 1 and rsi(14) < 35` — doji at oversold
"#@
}

fn note_2() -> (r: CreateNote)
    ensures
        note_is(r, "Candlestick Patterns Every Trader Should Know"@, note_text_2()),
{
    note(
        "Candlestick Patterns Every Trader Should Know",
        r#"# Candlestick Patterns

Candlesticks show the battle between buyers (bulls) and sellers (bears) in each time period.

## Single-Candle Patterns
- **Hammer**: Small body at top, long lower wick. Bullish reversal at bottoms.
- **Doji**: Open ≈ close. Indecision — potential reversal.
- **Dragonfly Doji**: Doji with long lower wick. Strong bullish signal at bottoms.
- **Gravestone Doji**: Doji with long upper wick. Bearish signal at tops.
- **Shooting Star**: Small body, long upper wick. Bearish reversal at tops.
- **Marubozu**: No wicks. Strong continuation signal.

## Two-Candle Patterns
- **Bullish Engulfing**: Large white candle engulfs prior black candle. Strong buy signal.
- **Bearish Engulfing**: Large black candle engulfs prior white candle. Strong sell signal.
- **Bullish Harami**: Small white candle inside large black candle. Reversal up.
- **Piercing Line**: Opens below prior low, closes above midpoint. Bullish reversal.
- **Dark Cloud Cover**: Opens above prior high, closes below midpoint. Bearish reversal.
- **Tweezer Bottom/Top**: Two candles with matching lows/highs. Minor reversal.

## Three-Candle Patterns
- **Morning Star**: Bearish → small body → bullish. Major bottom reversal.
- **Evening Star**: Bullish → small body → bearish. Major top reversal.
- **Three White Soldiers**: Three bullish candles, higher closes. Strong uptrend.
- **Three Black Crows**: Three bearish candles, lower closes. Strong downtrend.

## Rule DSL Examples
- `hammer == 1` — hammer pattern detected
- `bullish_engulfing == 1` — bullish engulfing detected
- `doji == 1 and rsi(14) < 35` — doji at oversold
"#,
    )
}

pub open spec fn note_text_3() -> Seq<char> {
    r#"# Moving Averages

Moving averages smooth price data to show the underlying trend.

## Types
- **SMA (Simple Moving Average)**: Equal weight to all periods.
- **EMA (Exponential Moving Average)**: More weight to recent prices. Reacts faster.

## Key Averages
- **EMA 50**: Short-term trend
- **EMA 200**: Long-term trend (most watched)
- **Golden Cross**: EMA50 crosses above EMA200 — major bullish signal
- **Death Cross**: EMA50 crosses below EMA200 — major bearish signal

## Trading Rules
1. Price above EMA200 = long-term uptrend (only look for buys)
2. Price below EMA200 = long-term downtrend (only look for sells)
3. Price above EMA50 = short-term strength
4. Price pulling back to EMA50 = potential buy zone

## Rule DSL Examples
- `price > ema(50)` — price above 50 EMA
- `price > ema(200)` — price above 200 EMA (long-term uptrend)
- `ema(50) > ema(200)` — golden cross condition
"#@
}

fn note_3() -> (r: CreateNote)
    ensures
        note_is(r, "Moving Averages — EMA and SMA"@, note_text_3()),
{
    note(
        "Moving Averages — EMA and SMA",
        r#"# Moving Averages

Moving averages smooth price data to show the underlying trend.

## Types
- **SMA (Simple Moving Average)**: Equal weight to all periods.
- **EMA (Exponential Moving Average)**: More weight to recent prices. Reacts faster.

## Key Averages
- **EMA 50**: Short-term trend
- **EMA 200**: Long-term trend (most watched)
- **Golden Cross**: EMA50 crosses above EMA200 — major bullish signal
- **Death Cross**: EMA50 crosses below EMA200 — major bearish signal

## Trading Rules
1. Price above EMA200 = long-term uptrend (only look for buys)
2. Price below EMA200 = long-term downtrend (only look for sells)
3. Price above EMA50 = short-term strength
4. Price pulling back to EMA50 = potential buy zone

## Rule DSL Examples
- `price > ema(50)` — price above 50 EMA
- `price > ema(200)` — price above 200 EMA (long-term uptrend)
- `ema(50) > ema(200)` — golden cross condition
"#,
    )
}

pub open spec fn note_text_4() -> Seq<char> {
    r#"# MACD

MACD shows the relationship between two moving averages (12 and 26 EMA).

## Components
- **MACD line**: EMA12 - EMA26 (the difference)
- **Signal line**: 9 EMA of the MACD line
- **Histogram**: MACD - Signal (visual momentum)

## Trading Rules
1. **MACD > 0**: Bullish momentum (buyers in control)
2. **MACD < 0**: Bearish momentum (sellers in control)
3. **MACD rising**: Momentum increasing
4. **MACD falling**: Momentum decreasing

## Best Used With
- EMA trend filter: Only take MACD signals in the direction of the EMA200
- RSI: Wait for MACD and RSI to agree
- Candlestick patterns: A hammer + MACD > 0 is a strong buy

## Rule DSL Examples
- `macd() > 0` — bullish momentum
- `macd() < 0` — bearish momentum
"#@
}

fn note_4() -> (r: CreateNote)
    ensures
        note_is(r, "MACD — Moving Average Convergence Divergence"@, note_text_4()),
{
    note(
        "MACD — Moving Average Convergence Divergence",
        r#"# MACD

MACD shows the relationship between two moving averages (12 and 26 EMA).

## Components
- **MACD line**: EMA12 - EMA26 (the difference)
- **Signal line**: 9 EMA of the MACD line
- **Histogram**: MACD - Signal (visual momentum)

## Trading Rules
1. **MACD > 0**: Bullish momentum (buyers in control)
2. **MACD < 0**: Bearish momentum (sellers in control)
3. **MACD rising**: Momentum increasing
4. **MACD falling**: Momentum decreasing

## Best Used With
- EMA trend filter: Only take MACD signals in the direction of the EMA200
- RSI: Wait for MACD and RSI to agree
- Candlestick patterns: A hammer + MACD > 0 is a strong buy

## Rule DSL Examples
- `macd() > 0` — bullish momentum
- `macd() < 0` — bearish momentum
"#,
    )
}

pub open spec fn note_text_5() -> Seq<char> {
    r#"# Risk Management

The most important part of trading. Without it, even the best strategy will lose money.

## Golden Rules
1. **Never risk more than 1-2% of your account** on a single trade
2. **Always use a stop loss** — no exceptions
3. **Aim for at least 1:2 risk/reward ratio** (risk 1 to make 2)
4. **Don't overtrade** — wait for high-quality setups

## Position Sizing
- Account: $10,000
- Risk per trade: 1% = $100
- Stop loss: 30 pips on EUR/USD
- Position size: $100 / 30 pips = 3.3 mini lots

## Stop Loss Placement
- **Forex**: 20-40 pips for scalping, 50-100 for swing trading
- **Indices**: 30-100 points depending on volatility
- **Behind support**: Place below recent swing low (for buys)

## Take Profit
- **1:2 minimum**: If your stop is 30 pips, target at least 60 pips
- **Trail your stop**: Move stop to breakeven once trade is profitable
- **Partial close**: Take half off at 1:1, let the rest run

## In This App
- Set `risk_per_trade` to 0.01 (1%) or 0.02 (2%)
- Set `stop_loss` in pips (forex) or points (indices)
- Set `take_profit` to at least 2x your stop loss
- Use paper mode to test before going live
"#@
}

fn note_5() -> (r: CreateNote)
    ensures
        note_is(r, "Risk Management — Position Sizing and Stop Losses"@, note_text_5()),
{
    note(
        "Risk Management — Position Sizing and Stop Losses",
        r#"# Risk Management

The most important part of trading. Without it, even the best strategy will lose money.

## Golden Rules
1. **Never risk more than 1-2% of your account** on a single trade
2. **Always use a stop loss** — no exceptions
3. **Aim for at least 1:2 risk/reward ratio** (risk 1 to make 2)
4. **Don't overtrade** — wait for high-quality setups

## Position Sizing
- Account: $10,000
- Risk per trade: 1% = $100
- Stop loss: 30 pips on EUR/USD
- Position size: $100 / 30 pips = 3.3 mini lots

## Stop Loss Placement
- **Forex**: 20-40 pips for scalping, 50-100 for swing trading
- **Indices**: 30-100 points depending on volatility
- **Behind support**: Place below recent swing low (for buys)

## Take Profit
- **1:2 minimum**: If your stop is 30 pips, target at least 60 pips
- **Trail your stop**: Move stop to breakeven once trade is profitable
- **Partial close**: Take half off at 1:1, let the rest run

## In This App
- Set `risk_per_trade` to 0.01 (1%) or 0.02 (2%)
- Set `stop_loss` in pips (forex) or points (indices)
- Set `take_profit` to at least 2x your stop loss
- Use paper mode to test before going live
"#,
    )
}

/// Note `i` of the built-in set.
pub open spec fn seeded_note(n: CreateNote, i: int) -> bool {
    if i == 0 {
        note_is(n, "RSI (Relative Strength Index) — How to Use It"@, note_text_1())
    } else if i == 1 {
        note_is(n, "Candlestick Patterns Every Trader Should Know"@, note_text_2())
    } else if i == 2 {
        note_is(n, "Moving Averages — EMA and SMA"@, note_text_3())
    } else if i == 3 {
        note_is(n, "MACD — Moving Average Convergence Divergence"@, note_text_4())
    } else if i == 4 {
        note_is(n, "Risk Management — Position Sizing and Stop Losses"@, note_text_5())
    } else {
        false
    }
}

/// The built-in educational notes (RSI, candlesticks, moving averages, MACD,
/// risk management).
pub fn builtin_notes() -> (r: Vec<CreateNote>)
    ensures
        r@.len() == 5,
        forall|i: int| 0 <= i < r@.len() ==> seeded_note(#[trigger] r@[i], i),
{
    let mut v: Vec<CreateNote> = Vec::new();

    v.push(note_1());
    v.push(note_2());
    v.push(note_3());
    v.push(note_4());
    v.push(note_5());
    v
}

/// The demo account a new installation starts with.
pub struct NewAccount {
    pub label: String,
    pub broker: String,
    pub account_ref: String,
    pub balance: Dec,
    pub currency: String,
    pub mode: crate::domain::TradingMode,
}

/// What seeding writes: the demo account, then its strategies and notes.
pub struct SeedPlan {
    pub account: NewAccount,
    pub strategies: Vec<CreateStrategy>,
    pub notes: Vec<CreateNote>,
}

/// Seeding happens only when there are no accounts yet: a paper-mode
/// "Demo Account" on Deriv ("demo", 10000 USD) with the built-in strategies
/// and notes.
pub fn seed_if_empty(account_count: usize) -> (r: Option<SeedPlan>)
    ensures
        account_count > 0 ==> r is None,
        account_count == 0 ==> (r matches Some(p) && {
            &&& p.account.label@ == "Demo Account"@
            &&& p.account.broker@ == "deriv"@
            &&& p.account.account_ref@ == "demo"@
            &&& p.account.balance@ == int_dv(10000)
            &&& p.account.currency@ == "USD"@
            &&& p.account.mode == crate::domain::TradingMode::Paper
            &&& p.strategies@.len() == 12
            &&& (forall|i: int| 0 <= i < 12 ==> seeded_strategy(#[trigger] p.strategies@[i], i))
            &&& p.notes@.len() == 5
            &&& (forall|i: int| 0 <= i < 5 ==> seeded_note(#[trigger] p.notes@[i], i))
        }),
{
    if account_count > 0 {
        return None;
    }
    Some(
        SeedPlan {
            account: NewAccount {
                label: String::from_str("Demo Account"),
                broker: String::from_str("deriv"),
                account_ref: String::from_str("demo"),
                balance: Dec::from_i64(10000),
                currency: String::from_str("USD"),
                mode: crate::domain::TradingMode::Paper,
            },
            strategies: builtin_strategies(),
            notes: builtin_notes(),
        },
    )
}

} // verus!
