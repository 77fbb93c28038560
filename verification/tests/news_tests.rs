use trading_backend::news::{assess_news, assess_news_for, symbol_currencies, symbol_currencies_checked, NewsEvent};

/// 2023-11-14T22:13:20Z.
const NOW: i64 = 1_700_000_000;

fn event(title: &str, country: &str, date: &str, impact: &str) -> NewsEvent {
    NewsEvent {
        title: title.to_string(),
        country: country.to_string(),
        date: date.to_string(),
        impact: impact.to_string(),
        forecast: String::new(),
        previous: String::new(),
    }
}

#[test]
fn currencies_of_a_forex_pair() {
    assert_eq!(symbol_currencies("frxEURUSD"), vec!["EUR".to_string(), "USD".to_string()]);
    assert_eq!(symbol_currencies("frxgbpjpy"), vec!["GBP".to_string(), "JPY".to_string()]);
}

#[test]
fn currencies_of_an_index_default_to_usd() {
    assert_eq!(symbol_currencies("R_100"), vec!["USD".to_string()]);
    assert_eq!(symbol_currencies("frxEU"), vec!["USD".to_string()]);
    assert_eq!(symbol_currencies_checked("BOOM500"), Some(vec!["USD".to_string()]));
}

#[test]
fn currencies_refused_when_a_code_cannot_be_cut() {
    assert_eq!(symbol_currencies_checked("frxé€UR"), None);
}

#[test]
fn imminent_high_impact_news_is_danger() {
    let events = vec![event("CPI", "USD", "2023-11-14T22:30:00Z", "High")];
    let a = assess_news("frxEURUSD", &events, NOW, 0).unwrap();
    assert_eq!(a.status, "danger");
    assert_eq!(a.upcoming_high_impact.len(), 1);
    assert_eq!(a.summary, "HIGH-IMPACT NEWS IMMINENT: 1 event(s) in the next 30 min (CPI (USD))");
    assert!(a.recommendation.starts_with("HIGH RISK:"));
}

#[test]
fn medium_news_is_caution_and_other_currencies_are_ignored() {
    let events = vec![
        event("Retail Sales", "EUR", "2023-11-14T17:20:00-05:00", "Medium"),
        event("Rate Decision", "JPY", "2023-11-14T22:20:00Z", "High"),
    ];
    let a = assess_news("frxEURUSD", &events, NOW, 0).unwrap();
    assert_eq!(a.status, "caution");
    assert_eq!(a.upcoming_medium_impact.len(), 1);
    assert!(a.upcoming_high_impact.is_empty());
    assert_eq!(a.summary, "Medium-impact news upcoming: 1 event(s) (Retail Sales (EUR))");
    assert!(a.recommendation.starts_with("CAUTION:"));
}

#[test]
fn news_released_in_the_last_fifteen_minutes() {
    let events = vec![event("NFP", "USD", "2023-11-14T22:05:00Z", "High")];
    let a = assess_news("R_100", &events, NOW, 0).unwrap();
    assert_eq!(a.status, "danger");
    assert_eq!(a.recently_released.len(), 1);
    assert_eq!(a.summary, "NEWS JUST RELEASED: 1 event(s) in the last 15 min (NFP (USD))");
}

#[test]
fn distant_or_unparsable_news_is_clear() {
    let events = vec![
        event("GDP", "USD", "2023-11-15T10:00:00Z", "High"),
        event("Old", "USD", "2023-11-14T21:00:00Z", "High"),
        event("Broken", "USD", "tomorrow", "High"),
    ];
    let cur = vec!["USD".to_string()];
    let a = assess_news_for(&cur, &events, NOW, 0);
    assert_eq!(a.status, "clear");
    assert_eq!(
        a.summary,
        "No high-impact news in the next 30 minutes. Market conditions are clear of news volatility."
    );
    assert_eq!(a.recommendation, "No news risk. Normal trading conditions. Proceed with standard risk management.");
}

#[test]
fn irrelevant_events_change_nothing() {
    let base = vec![event("CPI", "USD", "2023-11-14T22:30:00Z", "High")];
    let mut more = base.clone();
    more.insert(0, event("BoJ", "JPY", "2023-11-14T22:20:00Z", "High"));
    more.push(event("Broken", "USD", "soon", "High"));
    let cur = vec!["EUR".to_string(), "USD".to_string()];
    let a = assess_news_for(&cur, &base, NOW, 0);
    let b = assess_news_for(&cur, &more, NOW, 0);
    assert_eq!(a.status, b.status);
    assert_eq!(a.summary, b.summary);
    assert_eq!(a.upcoming_high_impact.len(), b.upcoming_high_impact.len());
}
