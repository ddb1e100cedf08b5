//! Configuration types for the tastytrade adapter.

use vstd::prelude::*;

use crate::common::consts::{DEFAULT_HTTP_TIMEOUT_SECS, TOKEN_REFRESH_BUFFER_SECS};
use crate::common::enums::TastytradeEnvironment;

verus! {

/// Default interval for refreshing the instrument catalog, in minutes.
pub const DEFAULT_UPDATE_INSTRUMENTS_INTERVAL_MINS: u64 = 60;

/// Configuration for the tastytrade live data client.
#[derive(Clone, Debug)]
pub struct TastytradeDataClientConfig {
    /// OAuth provider (client) secret. Falls back to `TASTYTRADE_PROVIDER_SECRET`.
    pub provider_secret: Option<String>,
    /// OAuth refresh token. Falls back to `TASTYTRADE_REFRESH_TOKEN`.
    pub refresh_token: Option<String>,
    /// Overrides the REST base URL (defaults to the environment's URL).
    pub base_url_http: Option<String>,
    /// Overrides the account-stream WebSocket URL (defaults to the environment's URL).
    pub base_url_ws: Option<String>,
    /// Optional `Accept-Version` header value (date string) for API version pinning.
    pub accept_version: Option<String>,
    /// API environment (defaults to sandbox).
    pub environment: TastytradeEnvironment,
    /// REST request timeout, in seconds.
    pub http_timeout_secs: u64,
    /// Refresh the access token this many seconds before expiry.
    pub token_refresh_buffer_secs: u64,
    /// Interval for refreshing the instrument catalog, in minutes.
    pub update_instruments_interval_mins: u64,
}

impl Default for TastytradeDataClientConfig {
    /// No credentials or overrides, the sandbox, and the default timeout,
    /// refresh buffer and instrument refresh interval.
    fn default() -> (config: Self)
        ensures
            config.provider_secret is None,
            config.refresh_token is None,
            config.base_url_http is None,
            config.base_url_ws is None,
            config.accept_version is None,
            config.environment == TastytradeEnvironment::Sandbox,
            config.http_timeout_secs == DEFAULT_HTTP_TIMEOUT_SECS,
            config.token_refresh_buffer_secs == TOKEN_REFRESH_BUFFER_SECS,
            config.update_instruments_interval_mins == DEFAULT_UPDATE_INSTRUMENTS_INTERVAL_MINS,
    {
        TastytradeDataClientConfig {
            provider_secret: None,
            refresh_token: None,
            base_url_http: None,
            base_url_ws: None,
            accept_version: None,
            environment: TastytradeEnvironment::Sandbox,
            http_timeout_secs: DEFAULT_HTTP_TIMEOUT_SECS,
            token_refresh_buffer_secs: TOKEN_REFRESH_BUFFER_SECS,
            update_instruments_interval_mins: DEFAULT_UPDATE_INSTRUMENTS_INTERVAL_MINS,
        }
    }
}

/// Configuration for the tastytrade live execution client.
#[derive(Clone, Debug)]
pub struct TastytradeExecClientConfig {
    /// OAuth provider (client) secret. Falls back to `TASTYTRADE_PROVIDER_SECRET`.
    pub provider_secret: Option<String>,
    /// OAuth refresh token. Falls back to `TASTYTRADE_REFRESH_TOKEN`.
    pub refresh_token: Option<String>,
    /// The tastytrade account number this client trades (e.g. `5WT00001`).
    pub account_number: Option<String>,
    /// Overrides the REST base URL (defaults to the environment's URL).
    pub base_url_http: Option<String>,
    /// Overrides the account-stream WebSocket URL (defaults to the environment's URL).
    pub base_url_ws: Option<String>,
    /// Optional `Accept-Version` header value (date string) for API version pinning.
    pub accept_version: Option<String>,
    /// API environment (defaults to sandbox).
    pub environment: TastytradeEnvironment,
    /// REST request timeout, in seconds.
    pub http_timeout_secs: u64,
    /// Refresh the access token this many seconds before expiry.
    pub token_refresh_buffer_secs: u64,
    /// Require an order dry-run to succeed before submitting a live order.
    pub use_dry_run: bool,
}

impl Default for TastytradeExecClientConfig {
    /// No credentials, account or overrides, the sandbox, the default timeout
    /// and refresh buffer, and dry-runs required.
    fn default() -> (config: Self)
        ensures
            config.provider_secret is None,
            config.refresh_token is None,
            config.account_number is None,
            config.base_url_http is None,
            config.base_url_ws is None,
            config.accept_version is None,
            config.environment == TastytradeEnvironment::Sandbox,
            config.http_timeout_secs == DEFAULT_HTTP_TIMEOUT_SECS,
            config.token_refresh_buffer_secs == TOKEN_REFRESH_BUFFER_SECS,
            config.use_dry_run,
    {
        TastytradeExecClientConfig {
            provider_secret: None,
            refresh_token: None,
            account_number: None,
            base_url_http: None,
            base_url_ws: None,
            accept_version: None,
            environment: TastytradeEnvironment::Sandbox,
            http_timeout_secs: DEFAULT_HTTP_TIMEOUT_SECS,
            token_refresh_buffer_secs: TOKEN_REFRESH_BUFFER_SECS,
            use_dry_run: true,
        }
    }
}

} // verus!
