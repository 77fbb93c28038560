//! Process settings, read from environment variables with defaults.
use core::time::Duration;
use vstd::prelude::*;

verus! {

#[derive(Clone, Debug)]
pub struct ServerSettings {
    pub host: String,
    pub port: u16,
}

#[derive(Clone, Debug)]
pub struct DatabaseSettings {
    pub url: String,
}

#[derive(Clone, Debug)]
pub struct LlmSettings {
    pub base_url: String,
    pub api_key: String,
    pub model: String,
    pub timeout_secs: u64,
}

/// Whole seconds of a `Duration` (`Duration::as_secs`).
pub uninterp spec fn duration_seconds(d: Duration) -> nat;

/// The fractional part of a `Duration`, in nanoseconds
/// (`Duration::subsec_nanos`).
pub uninterp spec fn duration_subsec_nanos(d: Duration) -> nat;

/// `Duration::from_secs`: a duration of exactly `secs` whole seconds, with
/// no fractional part.
#[verifier::external_body]
fn duration_from_secs(secs: u64) -> (r: Duration)
    ensures
        duration_seconds(r) == secs,
        duration_subsec_nanos(r) == 0,
{
    Duration::from_secs(secs)
}

impl LlmSettings {
    /// The request timeout of the model client.
    pub fn timeout(&self) -> (r: Duration)
        ensures
            duration_seconds(r) == self.timeout_secs,
            duration_subsec_nanos(r) == 0,
    {
        duration_from_secs(self.timeout_secs)
    }
}

#[derive(Clone, Debug)]
pub struct ProviderSettings {
    pub base_url: String,
    pub api_key: String,
    pub account_id: String,
    /// Deriv application id, used to build the WebSocket URL.
    pub app_id: String,
}

#[derive(Clone, Debug)]
pub struct Settings {
    pub server: ServerSettings,
    pub database: DatabaseSettings,
    pub llm: LlmSettings,
    pub forex: ProviderSettings,
    pub deriv: ProviderSettings,
    pub oanda: ProviderSettings,
    pub default_trading_mode: String,
    pub engine_tick_secs: u64,
    pub max_note_upload_bytes: usize,
    pub deriv_granularity_secs: u32,
}

/// Engine tick in seconds.
pub fn default_tick() -> (r: u64)
    ensures
        r == 10,
{
    10
}

/// Largest note upload: 5 MiB.
pub fn default_upload_bytes() -> (r: usize)
    ensures
        r == 5 * 1024 * 1024,
{
    5 * 1024 * 1024
}

/// Candle granularity requested from Deriv, in seconds.
pub fn default_granularity() -> (r: u32)
    ensures
        r == 60,
{
    60
}

// ---------------------------------------------------------------------------
// Environment.
// ---------------------------------------------------------------------------
/// Value of the first variable named `name`.
pub open spec fn env_lookup(vars: Seq<(String, String)>, name: Seq<char>) -> Option<Seq<char>>
    decreases vars.len(),
{
    if vars.len() == 0 {
        None
    } else if vars[0].0@ == name {
        Some(vars[0].1@)
    } else {
        env_lookup(vars.drop_first(), name)
    }
}

/// A variable's value, empty when unset.
pub open spec fn env_or_empty(vars: Seq<(String, String)>, name: Seq<char>) -> Seq<char> {
    match env_lookup(vars, name) {
        Some(v) => v,
        None => Seq::empty(),
    }
}

/// A variable's value, `default` when unset.
pub open spec fn env_or(vars: Seq<(String, String)>, name: Seq<char>, default: Seq<char>) -> Seq<char> {
    match env_lookup(vars, name) {
        Some(v) => v,
        None => default,
    }
}

pub open spec fn is_digit(c: char) -> bool {
    '0' <= c && c <= '9'
}

/// Value of a run of decimal digits.
pub open spec fn digits_value(s: Seq<char>) -> nat
    decreases s.len(),
{
    if s.len() == 0 {
        0
    } else {
        10 * digits_value(s.drop_last()) + ((s.last() as int - '0' as int) as nat)
    }
}

/// Unsigned integer parsing as Rust's `FromStr` does it: an optional '+'
/// followed by one or more digits, the value at most `max`.
pub open spec fn parse_uint_spec(s: Seq<char>, max: nat) -> Option<nat> {
    let d = uint_digits(s);
    if d.len() > 0 && all_digits(d) && digits_value(d) <= max {
        Some(digits_value(d))
    } else {
        None
    }
}

/// The text after an optional leading '+'.
pub open spec fn uint_digits(s: Seq<char>) -> Seq<char> {
    if s.len() > 0 && s[0] == '+' {
        s.drop_first()
    } else {
        s
    }
}

pub open spec fn all_digits(d: Seq<char>) -> bool {
    forall|i: int| 0 <= i < d.len() ==> #[trigger] is_digit(d[i])
}

/// Parses an unsigned integer no larger than `max`.
pub fn parse_uint(s: &str, max: u64) -> (r: Option<u64>)
    ensures
        match r {
            Some(v) => parse_uint_spec(s@, max as nat) == Some(v as nat),
            None => parse_uint_spec(s@, max as nat) is None,
        },
{
    let n = s.unicode_len();
    let start: usize = if n > 0 && s.get_char(0) == '+' {
        1
    } else {
        0
    };
    let ghost d = uint_digits(s@);
    assert(d =~= s@.subrange(start as int, n as int));
    if start == n {
        return None;
    }
    let mut v: u64 = 0;
    let mut i: usize = start;
    assert(s@.subrange(start as int, start as int) =~= Seq::<char>::empty());
    while i < n
        invariant
            n == s@.len(),
            start <= i <= n,
            start < n,
            d == uint_digits(s@),
            d =~= s@.subrange(start as int, n as int),
            forall|j: int| start <= j < i ==> is_digit(#[trigger] s@[j]),
            v as nat == digits_value(s@.subrange(start as int, i as int)),
            v <= max,
        decreases n - i,
    {
        let c = s.get_char(i);
        let ghost pre = s@.subrange(start as int, i + 1);
        assert(pre.drop_last() =~= s@.subrange(start as int, i as int));
        assert(pre.last() == c);
        if !('0' <= c && c <= '9') {
            assert(d[i - start] == s@[i as int]);
            assert(!is_digit(d[i - start]));
            assert(!all_digits(d));
            return None;
        }
        let digit: u64 = (c as u32 - '0' as u32) as u64;
        if digit > max || v > (max - digit) / 10 {
            proof {
                assert(digits_value(pre) == 10 * v + digit);
                if digit <= max {
                    assert(10 * v + digit > max) by (nonlinear_arith)
                        requires
                            v > (max - digit) / 10,
                            digit <= max,
                    {
                    }
                }
                if all_digits(d) {
                    lemma_digits_grow(d, (i + 1 - start) as nat);
                    assert(d.subrange(0, i + 1 - start) =~= pre);
                    assert(digits_value(d) > max);
                }
            }
            return None;
        }
        v = 10 * v + digit;
        i = i + 1;
    }
    assert(s@.subrange(start as int, n as int) =~= d);
    Some(v)
}

proof fn lemma_digits_grow(s: Seq<char>, k: nat)
    requires
        k <= s.len(),
        forall|i: int| 0 <= i < s.len() ==> #[trigger] is_digit(s[i]),
    ensures
        digits_value(s.subrange(0, k as int)) <= digits_value(s),
    decreases s.len() - k,
{
    if k < s.len() {
        lemma_digits_grow(s, k + 1);
        let a = s.subrange(0, k as int);
        let b = s.subrange(0, (k + 1) as int);
        assert(b.drop_last() =~= a);
    }
    if k == s.len() {
        assert(s.subrange(0, k as int) =~= s);
    }
}

/// Value of the first variable named `name`.
pub fn env_var(vars: &Vec<(String, String)>, name: &str) -> (r: Option<String>)
    ensures
        match r {
            Some(v) => env_lookup(vars@, name@) == Some(v@),
            None => env_lookup(vars@, name@) is None,
        },
{
    let mut i: usize = 0;
    assert(vars@.skip(0) =~= vars@);
    while i < vars.len()
        invariant
            i <= vars.len(),
            env_lookup(vars@, name@) == env_lookup(vars@.skip(i as int), name@),
        decreases vars.len() - i,
    {
        assert(vars@.skip(i as int).drop_first() =~= vars@.skip(i + 1));
        assert(vars@.skip(i as int)[0] == vars@[i as int]);
        if crate::text::str_eq(vars[i].0.as_str(), name) {
            return Some(vars[i].1.clone());
        }
        i = i + 1;
    }
    None
}

fn env_text(vars: &Vec<(String, String)>, name: &str, default: &str) -> (r: String)
    ensures
        r@ == env_or(vars@, name@, default@),
{
    match env_var(vars, name) {
        Some(v) => v,
        None => String::from_str(default),
    }
}

fn env_number(vars: &Vec<(String, String)>, name: &str, max: u64, default: u64) -> (r: u64)
    ensures
        r as nat == (match parse_uint_spec(env_or(vars@, name@, Seq::empty()), max as nat) {
            Some(v) => v,
            None => default as nat,
        }),
        r <= max || r == default,
{
    proof {
        reveal_strlit("");
        assert(""@ =~= Seq::<char>::empty());
    }
    let s = env_text(vars, name, "");
    match parse_uint(s.as_str(), max) {
        Some(v) => v,
        None => default,
    }
}

/// The number a variable holds when it parses, else the default.
pub open spec fn env_number_spec(vars: Seq<(String, String)>, name: Seq<char>, max: nat, default: nat) -> nat {
    match parse_uint_spec(env_or_empty(vars, name), max) {
        Some(v) => v,
        None => default,
    }
}

/// The settings that `Settings::load` builds from the environment.
pub open spec fn settings_of(s: Settings, vars: Seq<(String, String)>) -> bool {
    &&& s.server.host@ == env_or_empty(vars, "SERVER_HOST"@)
    &&& s.server.port as nat == env_number_spec(vars, "SERVER_PORT"@, 65535, 8080)
    &&& s.database.url@ == env_or(vars, "DATABASE_URL"@, "sqlite://trading.db?mode=rwc"@)
    &&& s.llm.base_url@ == env_or(vars, "LLM_BASE_URL"@, "https://api.openai.com/v1"@)
    &&& s.llm.api_key@ == env_or_empty(vars, "LLM_API_KEY"@)
    &&& s.llm.model@ == env_or(vars, "LLM_MODEL"@, "gpt-4o-mini"@)
    &&& s.llm.timeout_secs as nat == env_number_spec(vars, "LLM_TIMEOUT_SECS"@, u64::MAX as nat, 60)
    &&& s.forex.base_url@ == env_or_empty(vars, "FOREX_PROVIDER_BASE_URL"@)
    &&& s.forex.api_key@ == env_or_empty(vars, "FOREX_PROVIDER_API_KEY"@)
    &&& s.forex.account_id@ == env_or_empty(vars, "FOREX_PROVIDER_ACCOUNT_ID"@)
    &&& s.forex.app_id@ == Seq::<char>::empty()
    &&& s.deriv.base_url@ == env_or_empty(vars, "DERIV_PROVIDER_BASE_URL"@)
    &&& s.deriv.api_key@ == env_or_empty(vars, "DERIV_PROVIDER_API_TOKEN"@)
    &&& s.deriv.account_id@ == env_or_empty(vars, "DERIV_PROVIDER_ACCOUNT_ID"@)
    &&& s.deriv.app_id@ == env_or(vars, "DERIV_APP_ID"@, "1089"@)
    &&& s.oanda.base_url@ == env_or(vars, "OANDA_PROVIDER_BASE_URL"@, "https://api-fxpractice.oanda.com"@)
    &&& s.oanda.api_key@ == env_or_empty(vars, "OANDA_PROVIDER_API_TOKEN"@)
    &&& s.oanda.account_id@ == env_or_empty(vars, "OANDA_PROVIDER_ACCOUNT_ID"@)
    &&& s.oanda.app_id@ == Seq::<char>::empty()
    &&& s.default_trading_mode@ == env_or(vars, "DEFAULT_TRADING_MODE"@, "paper"@)
    &&& s.engine_tick_secs as nat == env_number_spec(vars, "ENGINE_TICK_SECS"@, u64::MAX as nat, 10)
    &&& s.max_note_upload_bytes as nat == env_number_spec(
        vars,
        "MAX_NOTE_UPLOAD_BYTES"@,
        usize::MAX as nat,
        5 * 1024 * 1024,
    )
    &&& s.deriv_granularity_secs as nat == env_number_spec(vars, "DERIV_GRANULARITY_SECS"@, u32::MAX as nat, 60)
}

fn provider(vars: &Vec<(String, String)>, base: &str, base_default: &str, key: &str, account: &str) -> (r:
    ProviderSettings)
    ensures
        r.base_url@ == env_or(vars@, base@, base_default@),
        r.api_key@ == env_or_empty(vars@, key@),
        r.account_id@ == env_or_empty(vars@, account@),
        r.app_id@ == Seq::<char>::empty(),
{
    proof {
        reveal_strlit("");
        assert(""@ =~= Seq::<char>::empty());
    }
    ProviderSettings {
        base_url: env_text(vars, base, base_default),
        api_key: env_text(vars, key, ""),
        account_id: env_text(vars, account, ""),
        app_id: String::new(),
    }
}

impl Settings {
    /// Settings from the environment's variables (name, value), with the
    /// documented defaults for unset or unparsable values.
    pub fn load(vars: &Vec<(String, String)>) -> (r: Settings)
        ensures
            settings_of(r, vars@),
    {
        proof {
            reveal_strlit("");
            assert(""@ =~= Seq::<char>::empty());
        }
        let port = env_number(vars, "SERVER_PORT", 65535, 8080);
        let timeout = env_number(vars, "LLM_TIMEOUT_SECS", u64::MAX, 60);
        let tick = env_number(vars, "ENGINE_TICK_SECS", u64::MAX, default_tick());
        let upload = env_number(vars, "MAX_NOTE_UPLOAD_BYTES", usize::MAX as u64, default_upload_bytes() as u64);
        let gran = env_number(vars, "DERIV_GRANULARITY_SECS", u32::MAX as u64, default_granularity() as u64);
        let forex = provider(vars, "FOREX_PROVIDER_BASE_URL", "", "FOREX_PROVIDER_API_KEY", "FOREX_PROVIDER_ACCOUNT_ID");
        let mut deriv = provider(
            vars,
            "DERIV_PROVIDER_BASE_URL",
            "",
            "DERIV_PROVIDER_API_TOKEN",
            "DERIV_PROVIDER_ACCOUNT_ID",
        );
        deriv.app_id = env_text(vars, "DERIV_APP_ID", "1089");
        let oanda = provider(
            vars,
            "OANDA_PROVIDER_BASE_URL",
            "https://api-fxpractice.oanda.com",
            "OANDA_PROVIDER_API_TOKEN",
            "OANDA_PROVIDER_ACCOUNT_ID",
        );
        Settings {
            server: ServerSettings { host: env_text(vars, "SERVER_HOST", ""), port: port as u16 },
            database: DatabaseSettings { url: env_text(vars, "DATABASE_URL", "sqlite://trading.db?mode=rwc") },
            llm: LlmSettings {
                base_url: env_text(vars, "LLM_BASE_URL", "https://api.openai.com/v1"),
                api_key: env_text(vars, "LLM_API_KEY", ""),
                model: env_text(vars, "LLM_MODEL", "gpt-4o-mini"),
                timeout_secs: timeout,
            },
            forex,
            deriv,
            oanda,
            default_trading_mode: env_text(vars, "DEFAULT_TRADING_MODE", "paper"),
            engine_tick_secs: tick,
            max_note_upload_bytes: upload as usize,
            deriv_granularity_secs: gran as u32,
        }
    }
}

} // verus!
