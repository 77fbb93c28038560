use trading_backend::settings_api::{
    deriv_check_reply, mask_value, settings_response, settings_updates, test_plan, TestConfig, TestPlan, TestReq,
    UpdateSettings, DERIV_API_TOKEN, LLM_API_KEY, LLM_MODEL, OANDA_API_TOKEN,
};

fn pair(k: &str, v: &str) -> (String, String) {
    (k.to_string(), v.to_string())
}

fn config() -> TestConfig {
    TestConfig {
        llm_api_key: "sk-123".to_string(),
        llm_base_url: "https://api.openai.com/v1".to_string(),
        llm_model: "gpt-4o-mini".to_string(),
        deriv_api_token: String::new(),
        oanda_api_token: "tok".to_string(),
        oanda_account_id: String::new(),
    }
}

fn reply(p: TestPlan) -> (bool, String) {
    match p {
        TestPlan::Reply(r) => (r.ok, r.message),
        TestPlan::CheckDerivToken => panic!("a live check was planned"),
    }
}

#[test]
fn secrets_are_masked_to_their_last_four_characters() {
    assert_eq!(mask_value(LLM_API_KEY, "sk-abcdef1234"), "••••1234");
    assert_eq!(mask_value(DERIV_API_TOKEN, "abc"), "••••abc");
    assert_eq!(mask_value(OANDA_API_TOKEN, ""), "");
    assert_eq!(mask_value(LLM_MODEL, "gpt-4o-mini"), "gpt-4o-mini");
}

#[test]
fn settings_page_rows() {
    let r = settings_response(vec![pair("llm_api_key", "secret-9876"), pair("llm_model", "")]);
    assert_eq!(r.values.len(), 2);
    assert_eq!(r.masked[0], pair("llm_api_key", "••••9876"));
    assert_eq!(r.masked[1], pair("llm_model", ""));
    assert_eq!(r.is_set, vec![("llm_api_key".to_string(), true), ("llm_model".to_string(), false)]);
}

#[test]
fn masked_placeholders_and_empty_values_are_not_stored() {
    let req = UpdateSettings {
        values: vec![pair("llm_api_key", "••••9876"), pair("llm_model", "  gpt-4o  "), pair("deriv_app_id", "")],
    };
    assert_eq!(settings_updates(&req), vec![pair("llm_model", "gpt-4o")]);
}

#[test]
fn connectivity_test_answers() {
    let c = config();
    let (ok, msg) = reply(test_plan(&TestReq { service: "llm".to_string() }, &c));
    assert!(ok);
    assert_eq!(msg, "LLM configured: https://api.openai.com/v1 model=gpt-4o-mini");
    let (ok, msg) = reply(test_plan(&TestReq { service: "deriv".to_string() }, &c));
    assert!(ok);
    assert_eq!(msg, "Anonymous mode (market data only). Set token for live trading.");
    let (ok, msg) = reply(test_plan(&TestReq { service: "oanda".to_string() }, &c));
    assert!(!ok);
    assert_eq!(msg, "No OANDA account ID set");
    let (ok, msg) = reply(test_plan(&TestReq { service: "ftp".to_string() }, &c));
    assert!(!ok);
    assert_eq!(msg, "Unknown service: ftp");
    let mut no_key = config();
    no_key.llm_api_key = String::new();
    assert_eq!(reply(test_plan(&TestReq { service: "llm".to_string() }, &no_key)).1, "No API key set");
}

#[test]
fn deriv_token_needs_a_live_check() {
    let mut c = config();
    c.deriv_api_token = "token".to_string();
    assert!(matches!(test_plan(&TestReq { service: "deriv".to_string() }, &c), TestPlan::CheckDerivToken));
    let r = deriv_check_reply(Ok("Connected: CR123 balance=10 USD".to_string()));
    assert!(r.ok);
    assert_eq!(r.message, "Connected: CR123 balance=10 USD");
    let r = deriv_check_reply(Err("InvalidToken".to_string()));
    assert!(!r.ok);
    assert_eq!(r.message, "Token test failed: InvalidToken");
}
