//! Trading analysis core: decimal arithmetic, evidence-based market reading,
//! rule-engine signals, backtesting, news assessment and broker helpers.
pub mod decimal;
pub mod text;
pub mod domain;
pub mod indicators;
pub mod reading;
pub mod candles;
pub mod evidence;
pub mod tools;
pub mod oscillators;
pub mod trend;
pub mod exhaustion;
pub mod news;
pub mod upper;
pub mod conditions;
pub mod decision;
pub mod plan;
pub mod options;
pub mod report;
pub mod analysis;
pub mod engine;
pub mod backtest;
pub mod deriv;
pub mod deriv_replies;
pub mod deriv_session;
pub mod config;
pub mod settings_api;
pub mod dynamic_config;
pub mod analytics;
pub mod web;
pub mod trade;
pub mod seeder;
pub mod laws;
