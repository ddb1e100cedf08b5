//! Verified core of the tastytrade brokerage adapter: venue constants, the API
//! environment, OAuth2 credentials, client configuration, REST error
//! classification, and the request/token logic of the REST client.

pub mod common;
pub mod config;
pub mod http;
