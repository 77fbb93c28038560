//! Runtime settings exposed to the UI: masking of secrets, which submitted
//! values are stored, and the connectivity test's answers.
use crate::text::{starts_with, str_eq, trim, trim_spec};
use vstd::prelude::*;

verus! {

/// Well-known setting keys.
pub const LLM_BASE_URL: &'static str = "llm_base_url";
pub const LLM_API_KEY: &'static str = "llm_api_key";
pub const LLM_MODEL: &'static str = "llm_model";
pub const DERIV_APP_ID: &'static str = "deriv_app_id";
pub const DERIV_API_TOKEN: &'static str = "deriv_api_token";
pub const DERIV_ACCOUNT_ID: &'static str = "deriv_account_id";
pub const OANDA_BASE_URL: &'static str = "oanda_base_url";
pub const OANDA_API_TOKEN: &'static str = "oanda_api_token";
pub const OANDA_ACCOUNT_ID: &'static str = "oanda_account_id";

/// Keys whose values are secrets.
pub open spec fn sensitive(key: Seq<char>) -> bool {
    key == "llm_api_key"@ || key == "deriv_api_token"@ || key == "oanda_api_token"@
}

/// The last four characters (all of them when fewer).
pub open spec fn tail4(v: Seq<char>) -> Seq<char> {
    if v.len() <= 4 {
        v
    } else {
        v.subrange(v.len() - 4, v.len() as int)
    }
}

/// A secret is shown as "••••" and its last four characters.
pub open spec fn shown_value(key: Seq<char>, value: Seq<char>) -> Seq<char> {
    if sensitive(key) && value.len() > 0 {
        "••••"@ + tail4(value)
    } else {
        value
    }
}

fn is_sensitive(key: &str) -> (r: bool)
    ensures
        r == sensitive(key@),
{
    str_eq(key, "llm_api_key") || str_eq(key, "deriv_api_token") || str_eq(key, "oanda_api_token")
}

/// The value as shown to the UI.
pub fn mask_value(key: &str, value: &str) -> (r: String)
    ensures
        r@ == shown_value(key@, value@),
{
    let n = value.unicode_len();
    if is_sensitive(key) && n > 0 {
        let tail = if n <= 4 {
            value.substring_char(0, n)
        } else {
            value.substring_char(n - 4, n)
        };
        assert(n <= 4 ==> tail@ =~= value@);
        let mut s = String::from_str("••••");
        s.append(tail);
        s
    } else {
        String::from_str(value)
    }
}

/// All values, as stored, as shown, and whether each is set.
pub struct SettingsResp {
    pub values: Vec<(String, String)>,
    pub masked: Vec<(String, String)>,
    pub is_set: Vec<(String, bool)>,
}

/// Row `j` of the settings page describes stored value `j`.
pub open spec fn row_ok(m: (String, String), s: (String, bool), a: (String, String)) -> bool {
    &&& m.0@ == a.0@
    &&& m.1@ == shown_value(a.0@, a.1@)
    &&& s.0@ == a.0@
    &&& s.1 == (a.1@.len() > 0)
}

/// The settings page's view of the stored values.
pub fn settings_response(all: Vec<(String, String)>) -> (r: SettingsResp)
    ensures
        r.values@ == all@,
        r.masked@.len() == all@.len(),
        r.is_set@.len() == all@.len(),
        forall|i: int| 0 <= i < all@.len() ==> row_ok(#[trigger] r.masked@[i], r.is_set@[i], all@[i]),
{
    let mut masked: Vec<(String, String)> = Vec::new();
    let mut is_set: Vec<(String, bool)> = Vec::new();
    let mut i: usize = 0;
    while i < all.len()
        invariant
            i <= all.len(),
            masked@.len() == i,
            is_set@.len() == i,
            forall|j: int| 0 <= j < i ==> row_ok(#[trigger] masked@[j], is_set@[j], all@[j]),
        decreases all.len() - i,
    {
        let k = &all[i].0;
        let v = &all[i].1;
        let ghost m0 = masked@;
        let ghost s0 = is_set@;
        let set = v.unicode_len() > 0;
        let kc = k.clone();
        is_set.push((kc, set));
        let kc2 = k.clone();
        let mv = mask_value(k.as_str(), v.as_str());
        masked.push((kc2, mv));
        assert(row_ok(masked@[i as int], is_set@[i as int], all@[i as int]));
        assert forall|j: int| 0 <= j < i + 1 implies row_ok(#[trigger] masked@[j], is_set@[j], all@[j]) by {
            if j < i {
                assert(masked@[j] == m0[j]);
                assert(is_set@[j] == s0[j]);
            }
        }
        i = i + 1;
    }
    SettingsResp { values: all, masked, is_set }
}

/// Values submitted from the settings page.
pub struct UpdateSettings {
    pub values: Vec<(String, String)>,
}

/// The (key, value) pairs stored for an update: empty values and masked
/// placeholders (values starting with "••••") are skipped, the rest are
/// trimmed.
pub open spec fn stored_updates(v: Seq<(String, String)>) -> Seq<(Seq<char>, Seq<char>)>
    decreases v.len(),
{
    if v.len() == 0 {
        Seq::empty()
    } else if v.last().1@.len() == 0 || "••••"@.is_prefix_of(v.last().1@) {
        stored_updates(v.drop_last())
    } else {
        stored_updates(v.drop_last()).push((v.last().0@, trim_spec(v.last().1@)))
    }
}

pub open spec fn pair_views(v: Seq<(String, String)>) -> Seq<(Seq<char>, Seq<char>)> {
    v.map_values(|p: (String, String)| (p.0@, p.1@))
}

/// The values to store for a settings update, in the order submitted.
pub fn settings_updates(req: &UpdateSettings) -> (r: Vec<(String, String)>)
    ensures
        pair_views(r@) == stored_updates(req.values@),
{
    let v = &req.values;
    let mut out: Vec<(String, String)> = Vec::new();
    let mut i: usize = 0;
    while i < v.len()
        invariant
            i <= v.len(),
            pair_views(out@) == stored_updates(v@.take(i as int)),
        decreases v.len() - i,
    {
        assert(v@.take(i + 1).drop_last() =~= v@.take(i as int));
        assert(v@.take(i + 1).last() == v@[i as int]);
        if v[i].1.unicode_len() != 0 && !starts_with(v[i].1.as_str(), "••••") {
            let ghost before = pair_views(out@);
            let p = (v[i].0.clone(), trim(v[i].1.as_str()));
            out.push(p);
            assert(pair_views(out@) =~= before.push((p.0@, p.1@)));
        }
        i = i + 1;
    }
    assert(v@.take(v.len() as int) =~= v@);
    out
}

/// A connectivity test request: "llm", "deriv" or "oanda".
pub struct TestReq {
    pub service: String,
}

pub struct TestResp {
    pub ok: bool,
    pub message: String,
}

/// The configuration the connectivity test reads.
pub struct TestConfig {
    pub llm_api_key: String,
    pub llm_base_url: String,
    pub llm_model: String,
    pub deriv_api_token: String,
    pub oanda_api_token: String,
    pub oanda_account_id: String,
}

/// The answer, or a live Deriv token check still to make.
pub enum TestPlan {
    Reply(TestResp),
    CheckDerivToken,
}

pub open spec fn reply_is(p: TestPlan, ok: bool, msg: Seq<char>) -> bool {
    match p {
        TestPlan::Reply(r) => r.ok == ok && r.message@ == msg,
        TestPlan::CheckDerivToken => false,
    }
}

/// What the connectivity test answers for a service: configured values
/// are checked for presence; a Deriv token needs a live check.
pub open spec fn test_plan_ok(p: TestPlan, service: Seq<char>, c: TestConfig) -> bool {
    if service == "llm"@ {
        if c.llm_api_key@.len() == 0 {
            reply_is(p, false, "No API key set"@)
        } else if c.llm_base_url@.len() == 0 {
            reply_is(p, false, "No base URL set"@)
        } else {
            reply_is(p, true, "LLM configured: "@ + c.llm_base_url@ + " model="@ + c.llm_model@)
        }
    } else if service == "deriv"@ {
        if c.deriv_api_token@.len() == 0 {
            reply_is(p, true, "Anonymous mode (market data only). Set token for live trading."@)
        } else {
            p is CheckDerivToken
        }
    } else if service == "oanda"@ {
        if c.oanda_api_token@.len() == 0 {
            reply_is(p, false, "No OANDA token set"@)
        } else if c.oanda_account_id@.len() == 0 {
            reply_is(p, false, "No OANDA account ID set"@)
        } else {
            reply_is(p, true, "OANDA configured: account "@ + c.oanda_account_id@)
        }
    } else {
        reply_is(p, false, "Unknown service: "@ + service)
    }
}

fn reply(ok: bool, message: String) -> (r: TestPlan)
    ensures
        reply_is(r, ok, message@),
{
    TestPlan::Reply(TestResp { ok, message })
}

/// Decides the connectivity test's answer.
pub fn test_plan(req: &TestReq, c: &TestConfig) -> (r: TestPlan)
    ensures
        test_plan_ok(r, req.service@, *c),
{
    let s = req.service.as_str();
    if str_eq(s, "llm") {
        if c.llm_api_key.unicode_len() == 0 {
            reply(false, String::from_str("No API key set"))
        } else if c.llm_base_url.unicode_len() == 0 {
            reply(false, String::from_str("No base URL set"))
        } else {
            let mut m = String::from_str("LLM configured: ");
            m.append(c.llm_base_url.as_str());
            m.append(" model=");
            m.append(c.llm_model.as_str());
            reply(true, m)
        }
    } else if str_eq(s, "deriv") {
        if c.deriv_api_token.unicode_len() == 0 {
            reply(true, String::from_str("Anonymous mode (market data only). Set token for live trading."))
        } else {
            TestPlan::CheckDerivToken
        }
    } else if str_eq(s, "oanda") {
        if c.oanda_api_token.unicode_len() == 0 {
            reply(false, String::from_str("No OANDA token set"))
        } else if c.oanda_account_id.unicode_len() == 0 {
            reply(false, String::from_str("No OANDA account ID set"))
        } else {
            let mut m = String::from_str("OANDA configured: account ");
            m.append(c.oanda_account_id.as_str());
            reply(true, m)
        }
    } else {
        let mut m = String::from_str("Unknown service: ");
        m.append(s);
        reply(false, m)
    }
}

/// The answer after a live Deriv token check: its message on success, the
/// failure's text otherwise.
pub fn deriv_check_reply(outcome: Result<String, String>) -> (r: TestResp)
    ensures
        match outcome {
            Ok(m) => r.ok && r.message@ == m@,
            Err(e) => !r.ok && r.message@ == "Token test failed: "@ + e@,
        },
{
    match outcome {
        Ok(m) => TestResp { ok: true, message: m },
        Err(e) => {
            let mut m = String::from_str("Token test failed: ");
            m.append(e.as_str());
            TestResp { ok: false, message: m }
        },
    }
}

} // verus!
