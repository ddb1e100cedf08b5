# nautilus_tastytrade

The verified core of the NautilusTrader adapter for the tastytrade brokerage.

- `src/common`: venue constants, the API environment and its URLs, OAuth2
  credentials (resolution from provided or environment values, redacted
  rendering, zeroizing), and text helpers (Unicode whitespace, decimal
  rendering).
- `src/config.rs`: data and execution client configuration with their defaults.
- `src/http`: REST error classification, the `serde_json` calls, response
  models, and the client core: token freshness, request construction,
  response parsing and retry gating.
- `app/`: the async shell (environment access, HTTP transport, retries,
  clock, serde/bon/thiserror derives, the floating-point consolidated BBO).
- `tests/`: tests of the library through its public API.
