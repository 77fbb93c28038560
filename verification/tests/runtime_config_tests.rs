use trading_backend::config::Settings;
use trading_backend::dynamic_config::{config_defaults, DynamicConfig};

fn pair(k: &str, v: &str) -> (String, String) {
    (k.to_string(), v.to_string())
}

#[test]
fn read_after_write() {
    let mut c = DynamicConfig::new();
    assert_eq!(c.get("deriv_api_token"), "");
    c.set("deriv_api_token", "abc");
    assert_eq!(c.get("deriv_api_token"), "abc");
    c.set("llm_model", "gpt-4o");
    c.set("deriv_api_token", "xyz");
    assert_eq!(c.get("deriv_api_token"), "xyz");
    assert_eq!(c.get("llm_model"), "gpt-4o");
    assert_eq!(c.get_all().len(), 2);
}

#[test]
fn persisted_values_override_defaults() {
    let defaults = config_defaults(&Settings::load(&vec![]));
    assert_eq!(defaults.len(), 9);
    assert_eq!(defaults[0], pair("llm_base_url", "https://api.openai.com/v1"));
    assert_eq!(defaults[3], pair("deriv_app_id", "1089"));
    let mut c = DynamicConfig::from_defaults(&defaults);
    c.overlay(&vec![pair("llm_model", "gpt-4.1"), pair("deriv_api_token", "tok")]);
    assert_eq!(c.get("llm_model"), "gpt-4.1");
    assert_eq!(c.get("deriv_api_token"), "tok");
    assert_eq!(c.get("oanda_base_url"), "https://api-fxpractice.oanda.com");
    assert_eq!(c.get("unknown_key"), "");
    let all = c.get_all();
    assert_eq!(all.len(), 9);
}

#[test]
fn later_pairs_win() {
    let c = DynamicConfig::from_defaults(&vec![pair("a", "1"), pair("a", "2")]);
    assert_eq!(c.get("a"), "2");
    assert_eq!(c.get_all(), vec![pair("a", "2")]);
}
