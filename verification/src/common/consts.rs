//! Constants for the tastytrade adapter.

use vstd::prelude::*;

verus! {

/// Venue identifier string.
pub const TASTYTRADE: &'static str = "TASTYTRADE";

/// Production REST base URL.
pub const REST_URL: &'static str = "https://api.tastytrade.com";

/// Sandbox ("certification") REST base URL.
pub const REST_URL_SANDBOX: &'static str = "https://api.cert.tastyworks.com";

/// Production account notification (alert) WebSocket URL.
pub const WS_ACCOUNT_URL: &'static str = "wss://streamer.tastyworks.com";

/// Sandbox account notification WebSocket URL (a distinct host).
pub const WS_ACCOUNT_URL_SANDBOX: &'static str = "wss://streamer.cert.tastyworks.com";

/// OAuth token endpoint (relative to the REST base URL).
pub const OAUTH_TOKEN_PATH: &'static str = "/oauth/token";

/// DXLink quote-token endpoint (relative to the REST base URL).
pub const API_QUOTE_TOKENS_PATH: &'static str = "/api-quote-tokens";

/// Account discovery endpoint (relative to the REST base URL).
pub const CUSTOMER_ACCOUNTS_PATH: &'static str = "/customers/me/accounts";

/// Refresh the OAuth access token this many seconds before its stated expiry.
pub const TOKEN_REFRESH_BUFFER_SECS: u64 = 60;

/// Default request timeout for REST calls, in seconds.
pub const DEFAULT_HTTP_TIMEOUT_SECS: u64 = 10;

/// Default REST rate-limit budget (requests per second); a conservative
/// placeholder, since tastytrade publishes no rate-limit table.
pub const DEFAULT_REST_QUOTA_PER_SECOND: u32 = 10;

} // verus!
