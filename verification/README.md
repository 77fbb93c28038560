# trading_backend

The logic of a trading backend, written in Verus and proved against its
contracts: decimal arithmetic (through `rust_decimal`), an evidence-based
market reading that decides buy, sell or wait with an entry checklist, the
rule engine's signals, a bar-by-bar backtest, economic-calendar news
assessment, Deriv broker conventions (symbols, quotes, contract terms,
reply handling and the connection's decisions), the runtime key-value
configuration, the settings page's rules, account analytics and the
built-in strategies and notes.

Layout:

- `src/` — the verified library; `src/laws.rs` states the properties that
  span several operations.
- `tests/` — tests of the library on concrete values.
- `app/` — the HTTP server around the library (axum, SQLite through sqlx,
  the Deriv WebSocket client, environment loading).
