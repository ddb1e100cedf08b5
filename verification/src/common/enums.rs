//! Enumerations for the tastytrade adapter.

use vstd::prelude::*;

use crate::common::consts::{REST_URL, REST_URL_SANDBOX, WS_ACCOUNT_URL, WS_ACCOUNT_URL_SANDBOX};

verus! {

/// The tastytrade API environment.
///
/// Defaults to [`Sandbox`](TastytradeEnvironment::Sandbox) so that exploratory
/// work cannot accidentally hit production.
#[derive(Clone, Copy, Debug, PartialEq, Eq, Structural, Hash)]
pub enum TastytradeEnvironment {
    /// Production environment (`api.tastytrade.com`).
    Production,
    /// Certification/sandbox environment (`api.cert.tastyworks.com`).
    Sandbox,
}

impl TastytradeEnvironment {
    /// The REST base URL of an environment.
    pub open spec fn spec_rest_url(self) -> Seq<char> {
        match self {
            TastytradeEnvironment::Production => REST_URL@,
            TastytradeEnvironment::Sandbox => REST_URL_SANDBOX@,
        }
    }

    /// The account notification WebSocket URL of an environment.
    pub open spec fn spec_ws_account_url(self) -> Seq<char> {
        match self {
            TastytradeEnvironment::Production => WS_ACCOUNT_URL@,
            TastytradeEnvironment::Sandbox => WS_ACCOUNT_URL_SANDBOX@,
        }
    }

    /// Returns the REST base URL for this environment.
    pub fn rest_url(self) -> (url: &'static str)
        ensures
            url@ == self.spec_rest_url(),
    {
        match self {
            TastytradeEnvironment::Production => REST_URL,
            TastytradeEnvironment::Sandbox => REST_URL_SANDBOX,
        }
    }

    /// Returns the account notification (alert) WebSocket URL for this environment.
    pub fn ws_account_url(self) -> (url: &'static str)
        ensures
            url@ == self.spec_ws_account_url(),
    {
        match self {
            TastytradeEnvironment::Production => WS_ACCOUNT_URL,
            TastytradeEnvironment::Sandbox => WS_ACCOUNT_URL_SANDBOX,
        }
    }

    /// Returns `true` if this is the sandbox environment.
    pub fn is_sandbox(self) -> (b: bool)
        ensures
            b == (self == TastytradeEnvironment::Sandbox),
    {
        match self {
            TastytradeEnvironment::Production => false,
            TastytradeEnvironment::Sandbox => true,
        }
    }
}

impl Default for TastytradeEnvironment {
    /// The sandbox environment.
    fn default() -> (env: Self)
        ensures
            env == TastytradeEnvironment::Sandbox,
    {
        TastytradeEnvironment::Sandbox
    }
}

/// Whether `prefix` begins `s`.
pub open spec fn starts_with(s: Seq<char>, prefix: Seq<char>) -> bool {
    prefix.len() <= s.len() && s.subrange(0, prefix.len() as int) == prefix
}

/// Every environment's REST URL is served over `https://` and its account
/// stream over `wss://`; the two environments never share a REST host or a
/// stream host, and the sandbox is exactly the environment whose hosts are
/// the certification ones.
pub proof fn lemma_environment_urls(env: TastytradeEnvironment)
    ensures
        starts_with(env.spec_rest_url(), "https://"@),
        starts_with(env.spec_ws_account_url(), "wss://"@),
        TastytradeEnvironment::Production.spec_rest_url()
            != TastytradeEnvironment::Sandbox.spec_rest_url(),
        TastytradeEnvironment::Production.spec_ws_account_url()
            != TastytradeEnvironment::Sandbox.spec_ws_account_url(),
        (env == TastytradeEnvironment::Sandbox) <==> (env.spec_rest_url() == REST_URL_SANDBOX@),
        (env == TastytradeEnvironment::Sandbox) <==> (env.spec_ws_account_url()
            == WS_ACCOUNT_URL_SANDBOX@),
{
    reveal_strlit("https://");
    reveal_strlit("wss://");
    reveal_strlit("https://api.tastytrade.com");
    reveal_strlit("https://api.cert.tastyworks.com");
    reveal_strlit("wss://streamer.tastyworks.com");
    reveal_strlit("wss://streamer.cert.tastyworks.com");
    assert(REST_URL@.subrange(0, 8) =~= "https://"@);
    assert(REST_URL_SANDBOX@.subrange(0, 8) =~= "https://"@);
    assert(WS_ACCOUNT_URL@.subrange(0, 6) =~= "wss://"@);
    assert(WS_ACCOUNT_URL_SANDBOX@.subrange(0, 6) =~= "wss://"@);
}

} // verus!
