use trading_backend::config::{
    default_granularity, default_tick, default_upload_bytes, env_var, parse_uint, Settings,
};

fn vars(list: &[(&str, &str)]) -> Vec<(String, String)> {
    list.iter().map(|(k, v)| (k.to_string(), v.to_string())).collect()
}

#[test]
fn config_defaults() {
    assert_eq!(default_tick(), 10);
    assert_eq!(default_upload_bytes(), 5 * 1024 * 1024);
    assert_eq!(default_granularity(), 60);
}

#[test]
fn unsigned_parsing_matches_from_str() {
    assert_eq!(parse_uint("8080", 65535), Some(8080));
    assert_eq!(parse_uint("+7", 65535), Some(7));
    assert_eq!(parse_uint("65536", 65535), None);
    assert_eq!(parse_uint("", 65535), None);
    assert_eq!(parse_uint("+", 65535), None);
    assert_eq!(parse_uint("-1", 65535), None);
    assert_eq!(parse_uint("12a", 65535), None);
    assert_eq!(parse_uint("18446744073709551615", u64::MAX), Some(u64::MAX));
    assert_eq!(parse_uint("18446744073709551616", u64::MAX), None);
}

#[test]
fn first_variable_wins() {
    let v = vars(&[("A", "1"), ("A", "2")]);
    assert_eq!(env_var(&v, "A"), Some("1".to_string()));
    assert_eq!(env_var(&v, "B"), None);
}

#[test]
fn settings_defaults_when_nothing_is_set() {
    let s = Settings::load(&vec![]);
    assert_eq!(s.server.host, "");
    assert_eq!(s.server.port, 8080);
    assert_eq!(s.database.url, "sqlite://trading.db?mode=rwc");
    assert_eq!(s.llm.base_url, "https://api.openai.com/v1");
    assert_eq!(s.llm.model, "gpt-4o-mini");
    assert_eq!(s.llm.timeout_secs, 60);
    assert_eq!(s.llm.timeout().as_secs(), 60);
    assert_eq!(s.llm.timeout().subsec_nanos(), 0);
    assert_eq!(s.deriv.app_id, "1089");
    assert_eq!(s.oanda.base_url, "https://api-fxpractice.oanda.com");
    assert_eq!(s.default_trading_mode, "paper");
    assert_eq!(s.engine_tick_secs, 10);
    assert_eq!(s.max_note_upload_bytes, 5 * 1024 * 1024);
    assert_eq!(s.deriv_granularity_secs, 60);
}

#[test]
fn settings_read_from_variables() {
    let v = vars(&[
        ("SERVER_HOST", "127.0.0.1"),
        ("SERVER_PORT", "9000"),
        ("LLM_TIMEOUT_SECS", "15"),
        ("DERIV_APP_ID", "555"),
        ("DERIV_PROVIDER_API_TOKEN", "tok"),
        ("ENGINE_TICK_SECS", "abc"),
        ("DEFAULT_TRADING_MODE", "live"),
    ]);
    let s = Settings::load(&v);
    assert_eq!(s.server.host, "127.0.0.1");
    assert_eq!(s.server.port, 9000);
    assert_eq!(s.llm.timeout_secs, 15);
    assert_eq!(s.llm.timeout().as_secs(), 15);
    assert_eq!(s.deriv.app_id, "555");
    assert_eq!(s.deriv.api_key, "tok");
    assert_eq!(s.engine_tick_secs, 10);
    assert_eq!(s.default_trading_mode, "live");
    assert_eq!(Settings::load(&vars(&[("SERVER_PORT", "70000")])).server.port, 8080);
}
