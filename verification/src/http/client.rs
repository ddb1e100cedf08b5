//! The request and token logic of the HTTP client for the tastytrade REST API.
//!
//! The client keeps the OAuth2 access token with its expiry and decides when
//! it must be refreshed (with a freshness buffer), builds every request (URL,
//! headers, body), classifies responses, and gates retries to idempotent
//! operations. Performing the requests, the clock, the refresh lock and the
//! retry timing belong to the caller, which hands back what it observed.

use vstd::prelude::*;
use vstd::string::*;

use crate::common::consts::{API_QUOTE_TOKENS_PATH, CUSTOMER_ACCOUNTS_PATH, OAUTH_TOKEN_PATH};
use crate::common::credential::TastytradeCredential;
use crate::common::enums::TastytradeEnvironment;
use crate::http::error::{retry_after_delay_ms, status_error_matches, utf8_lossy_text, Error};
use crate::http::json::{
    decodes_to, json_decode, json_encode, json_from_slice, json_null, json_string_object,
    json_string_object_value, json_to_vec, null_text, string_pairs_text,
};
use crate::http::models::OAuthRefreshRequest;

verus! {

/// Resource suffix for account balances.
pub const BALANCES_RESOURCE: &'static str = "/balances";

/// Resource suffix for account positions.
pub const POSITIONS_RESOURCE: &'static str = "/positions";

/// Resource suffix for live (working) orders.
pub const LIVE_ORDERS_RESOURCE: &'static str = "/orders/live";

/// Resource suffix for order dry-runs.
pub const DRY_RUN_ORDER_RESOURCE: &'static str = "/orders/dry-run";

/// The HTTP methods the client uses.
#[derive(Clone, Copy, Debug, PartialEq, Eq, Structural)]
pub enum HttpMethod {
    Get,
    Post,
}

/// A fully built request, ready to be sent by the transport.
#[derive(Clone, Debug)]
pub struct HttpRequest {
    pub method: HttpMethod,
    pub url: String,
    /// Header names and values; no name occurs twice.
    pub headers: Vec<(String, String)>,
    pub body: Option<Vec<u8>>,
    /// Whether the request may be retried (it never mutates state).
    pub idempotent: bool,
}

/// The characters of header pairs.
pub open spec fn header_text(headers: Seq<(String, String)>) -> Seq<(Seq<char>, Seq<char>)> {
    headers.map_values(|h: (String, String)| (h.0@, h.1@))
}

/// The characters of an optional string.
pub open spec fn opt_string_text(s: Option<String>) -> Option<Seq<char>> {
    match s {
        Some(t) => Some(t@),
        None => None,
    }
}

/// The headers sent with every request.
pub open spec fn default_header_text(user_agent: Seq<char>) -> Seq<(Seq<char>, Seq<char>)> {
    seq![
        ("User-Agent"@, user_agent),
        ("Content-Type"@, "application/json"@),
        ("Accept"@, "application/json"@),
    ]
}

/// The headers of an authenticated request: the default ones, the bearer
/// token, and the pinned API version when one is configured.
pub open spec fn authed_header_text(
    user_agent: Seq<char>,
    accept_version: Option<Seq<char>>,
    token: Seq<char>,
) -> Seq<(Seq<char>, Seq<char>)> {
    default_header_text(user_agent) + seq![("Authorization"@, "Bearer "@ + token)] + match accept_version {
        Some(v) => seq![("Accept-Version"@, v)],
        None => Seq::empty(),
    }
}

/// Whether no header name occurs twice.
pub open spec fn distinct_names(headers: Seq<(Seq<char>, Seq<char>)>) -> bool {
    forall|i: int, j: int|
        0 <= i < headers.len() && 0 <= j < headers.len() && i != j ==> #[trigger] headers[i].0
            != #[trigger] headers[j].0
}

/// Whether a status code is a success (2xx).
pub open spec fn is_success(status: u16) -> bool {
    200 <= status && status <= 299
}

/// A failed request is retried only when it is idempotent and its error is
/// worth retrying.
pub open spec fn retry_allowed(idempotent: bool, err: Error) -> bool {
    idempotent && err.retryable()
}

/// The key and value pairs of a refresh-token grant's JSON object.
pub open spec fn grant_pairs(grant: OAuthRefreshRequest) -> Seq<(Seq<char>, Seq<char>)> {
    seq![
        ("grant_type"@, grant.grant_type@),
        ("refresh_token"@, grant.refresh_token@),
        ("client_secret"@, grant.client_secret@),
    ]
}

/// The JSON object of a refresh-token grant.
pub open spec fn grant_object(grant: OAuthRefreshRequest) -> serde_json::Value {
    json_string_object_value(grant_pairs(grant))
}

/// The JSON object of the refresh-token grant for credentials `c`
/// (`(provider_secret, refresh_token)`).
pub open spec fn credential_grant_object(c: (Seq<char>, Seq<char>)) -> serde_json::Value {
    json_string_object_value(
        seq![("grant_type"@, "refresh_token"@), ("refresh_token"@, c.1), ("client_secret"@, c.0)],
    )
}

/// Whether `r` is what refreshing with credentials `c` builds: a
/// retry-eligible `POST` of their grant, JSON-encoded, to the OAuth token
/// endpoint with the default headers, or the error of encoding it.
pub open spec fn refresh_request_for(
    client: ClientView,
    c: (Seq<char>, Seq<char>),
    r: Result<HttpRequest, Error>,
) -> bool {
    match r {
        Ok(req) => {
            &&& req.method == HttpMethod::Post
            &&& req.url@ == client.url_for(OAUTH_TOKEN_PATH@)
            &&& header_text(req.headers@) == default_header_text(client.user_agent)
            &&& req.body matches Some(bytes) && json_encode(credential_grant_object(c)) matches Ok(
                encoded,
            ) && bytes@ == encoded
            &&& req.idempotent
        },
        Err(e) => json_encode(credential_grant_object(c)) matches Err(je) && e == Error::Serde(je),
    }
}

/// What obtaining an access token takes next.
#[derive(Clone, Debug)]
pub enum TokenStep {
    /// The cached token is fresh: use it.
    Cached(String),
    /// Send this refresh-token request, then store the token it returns.
    Refresh(HttpRequest),
}

/// The delay before retrying a request that failed with `err`, when it is
/// retried at all: what a rate limit asked for, else none.
pub open spec fn retry_wait(idempotent: bool, err: Error) -> Option<u64> {
    if retry_allowed(idempotent, err) {
        match err {
            Error::RateLimit { retry_after_ms } => retry_after_ms,
            _ => None,
        }
    } else {
        None
    }
}

/// The observable state of the client.
pub struct ClientView {
    /// `(provider_secret, refresh_token)`, when configured.
    pub credential: Option<(Seq<char>, Seq<char>)>,
    pub base_url: Seq<char>,
    pub environment: TastytradeEnvironment,
    pub accept_version: Option<Seq<char>>,
    pub user_agent: Seq<char>,
    pub token_refresh_buffer_secs: u64,
    /// The cached access token and the instant (in milliseconds on the
    /// caller's monotonic clock) at which it expires.
    pub token: Option<(Seq<char>, int)>,
}

impl ClientView {
    /// A client holds a token only when it has credentials to have acquired
    /// it with.
    pub open spec fn coherent(self) -> bool {
        self.credential is None ==> self.token is None
    }

    /// The state with both secrets of the credential wiped.
    pub open spec fn with_credential_wiped(self) -> ClientView {
        ClientView {
            credential: match self.credential {
                Some(_) => Some((Seq::<char>::empty(), Seq::<char>::empty())),
                None => None,
            },
            ..self
        }
    }

    /// The cached token, if it is still valid for longer than the refresh
    /// buffer at `now_ms`.
    pub open spec fn fresh_token(self, now_ms: int) -> Option<Seq<char>> {
        match self.token {
            Some((token, expires_at_ms)) => if expires_at_ms > now_ms + self.token_refresh_buffer_secs
                * 1000 {
                Some(token)
            } else {
                None
            },
            None => None,
        }
    }

    /// The state with a newly acquired token that expires at `expires_at_ms`.
    pub open spec fn with_token(self, token: Seq<char>, expires_at_ms: int) -> ClientView {
        ClientView { token: Some((token, expires_at_ms)), ..self }
    }

    /// The state with another REST base URL.
    pub open spec fn with_base_url(self, base_url: Seq<char>) -> ClientView {
        ClientView { base_url, ..self }
    }

    /// The URL of a path under the base URL.
    pub open spec fn url_for(self, path: Seq<char>) -> Seq<char> {
        self.base_url + path
    }
}

struct TokenState {
    access_token: String,
    expires_at_ms: u128,
}

/// The state and request logic of the tastytrade REST client.
///
/// A single instance is intended to be shared between the data and execution
/// clients.
pub struct TastytradeHttpClient {
    credential: Option<TastytradeCredential>,
    base_url: String,
    environment: TastytradeEnvironment,
    accept_version: Option<String>,
    user_agent: String,
    token_refresh_buffer_secs: u64,
    access_token: Option<TokenState>,
}

impl View for TastytradeHttpClient {
    type V = ClientView;

    closed spec fn view(&self) -> ClientView {
        ClientView {
            credential: match self.credential {
                Some(c) => Some(c@),
                None => None,
            },
            base_url: self.base_url@,
            environment: self.environment,
            accept_version: opt_string_text(self.accept_version),
            user_agent: self.user_agent@,
            token_refresh_buffer_secs: self.token_refresh_buffer_secs,
            token: match self.access_token {
                Some(t) => Some((t.access_token@, t.expires_at_ms as int)),
                None => None,
            },
        }
    }
}

impl TastytradeHttpClient {
    /// A token is held only by a client that has credentials.
    #[verifier::type_invariant]
    spec fn token_needs_credential(&self) -> bool {
        self.credential is None ==> self.access_token is None
    }

    /// Creates a client for `environment`, pointed at its REST base URL, with
    /// no access token yet. `user_agent` is the `User-Agent` header value.
    pub fn new(
        credential: Option<TastytradeCredential>,
        environment: TastytradeEnvironment,
        accept_version: Option<String>,
        token_refresh_buffer_secs: u64,
        user_agent: String,
    ) -> (client: Self)
        ensures
            client@.credential == (match credential {
                Some(c) => Some(c@),
                None => None::<(Seq<char>, Seq<char>)>,
            }),
            client@.base_url == environment.spec_rest_url(),
            client@.environment == environment,
            client@.accept_version == opt_string_text(accept_version),
            client@.user_agent == user_agent@,
            client@.token_refresh_buffer_secs == token_refresh_buffer_secs,
            client@.token is None,
            client@.coherent(),
    {
        TastytradeHttpClient {
            credential,
            base_url: String::from_str(environment.rest_url()),
            environment,
            accept_version,
            user_agent,
            token_refresh_buffer_secs,
            access_token: None,
        }
    }

    /// Returns the configured environment.
    pub fn environment(&self) -> (env: TastytradeEnvironment)
        ensures
            env == self@.environment,
    {
        self.environment
    }

    /// Returns `true` if this client has credentials for authenticated requests.
    pub fn is_authenticated(&self) -> (b: bool)
        ensures
            b == self@.credential is Some,
    {
        self.credential.is_some()
    }

    /// Overrides the base REST URL (for testing with mock servers).
    pub fn set_base_url(&mut self, url: String)
        ensures
            final(self)@ == old(self)@.with_base_url(url@),
    {
        proof {
            use_type_invariant(&*self);
        }
        self.base_url = url;
    }

    /// The URL of `path` under the base URL.
    pub fn build_url(&self, path: &str) -> (url: String)
        ensures
            url@ == self@.url_for(path@),
    {
        let mut url = self.base_url.clone();
        url.append(path);
        url
    }

    /// The headers sent with every request.
    pub fn default_headers(&self) -> (headers: Vec<(String, String)>)
        ensures
            header_text(headers@) == default_header_text(self@.user_agent),
    {
        let mut headers: Vec<(String, String)> = Vec::new();
        headers.push((String::from_str("User-Agent"), self.user_agent.clone()));
        headers.push((String::from_str("Content-Type"), String::from_str("application/json")));
        headers.push((String::from_str("Accept"), String::from_str("application/json")));
        assert(header_text(headers@) =~= default_header_text(self@.user_agent));
        headers
    }

    /// The headers of a request authenticated with `token`.
    pub fn authed_headers(&self, token: &str) -> (headers: Vec<(String, String)>)
        ensures
            header_text(headers@) == authed_header_text(
                self@.user_agent,
                self@.accept_version,
                token@,
            ),
            headers@[3].0@ == "Authorization"@,
            headers@[3].1@ == "Bearer "@ + token@,
            self@.accept_version is None ==> headers@.len() == 4,
            self@.accept_version matches Some(v) ==> (headers@.len() == 5 && headers@[4].0@
                == "Accept-Version"@ && headers@[4].1@ == v),
    {
        let mut headers = self.default_headers();
        let mut value = String::from_str("Bearer ");
        value.append(token);
        headers.push((String::from_str("Authorization"), value));
        match &self.accept_version {
            Some(version) => {
                headers.push((String::from_str("Accept-Version"), version.clone()));
            },
            None => {},
        }
        assert(header_text(headers@) =~= authed_header_text(
            self@.user_agent,
            self@.accept_version,
            token@,
        ));
        headers
    }

    /// Returns the cached access token if it stays valid for longer than the
    /// refresh buffer at `now_ms`; `None` means it must be refreshed.
    pub fn cached_access_token(&self, now_ms: u64) -> (token: Option<String>)
        ensures
            opt_string_text(token) == self@.fresh_token(now_ms as int),
            self@.coherent(),
            self@.credential is None ==> token is None,
    {
        proof {
            use_type_invariant(self);
        }
        match &self.access_token {
            Some(state) => {
                let buffer_ms = (self.token_refresh_buffer_secs as u128) * 1000;
                if state.expires_at_ms > (now_ms as u128) + buffer_ms {
                    Some(state.access_token.clone())
                } else {
                    None
                }
            },
            None => None,
        }
    }

    /// The body of the refresh-token grant for the configured credentials.
    ///
    /// # Errors
    ///
    /// Returns [`Error::Auth`] if no credentials are configured.
    pub fn oauth_refresh_request(&self) -> (r: Result<OAuthRefreshRequest, Error>)
        ensures
            match r {
                Ok(grant) => self@.credential matches Some(c) && grant.grant_type@
                    == "refresh_token"@ && grant.refresh_token@ == c.1 && grant.client_secret@
                    == c.0,
                Err(e) => self@.credential is None && (e matches Error::Auth(m) && m@
                    == "No credentials configured"@),
            },
    {
        match &self.credential {
            Some(credential) => Ok(
                OAuthRefreshRequest {
                    grant_type: String::from_str("refresh_token"),
                    refresh_token: String::from_str(credential.refresh_token()),
                    client_secret: String::from_str(credential.provider_secret()),
                },
            ),
            None => Err(Error::auth("No credentials configured")),
        }
    }

    /// The token request that carries `grant` as its JSON body
    /// (`{"grant_type": ..., "refresh_token": ..., "client_secret": ...}`): a
    /// retry-eligible `POST` to the OAuth token endpoint with the default
    /// headers (no `Authorization`).
    ///
    /// # Errors
    ///
    /// Returns [`Error::Serde`] if the body cannot be encoded.
    pub fn token_request(&self, grant: &OAuthRefreshRequest) -> (r: Result<HttpRequest, Error>)
        ensures
            match r {
                Ok(req) => {
                    &&& req.method == HttpMethod::Post
                    &&& req.url@ == self@.url_for(OAUTH_TOKEN_PATH@)
                    &&& header_text(req.headers@) == default_header_text(self@.user_agent)
                    &&& req.body matches Some(bytes) && json_encode(grant_object(*grant)) matches Ok(
                        encoded,
                    ) && bytes@ == encoded
                    &&& req.idempotent
                },
                Err(e) => json_encode(grant_object(*grant)) matches Err(je) && e == Error::Serde(
                    je,
                ),
            },
    {
        let mut entries: Vec<(String, String)> = Vec::new();
        entries.push((String::from_str("grant_type"), grant.grant_type.clone()));
        entries.push((String::from_str("refresh_token"), grant.refresh_token.clone()));
        entries.push((String::from_str("client_secret"), grant.client_secret.clone()));
        assert(string_pairs_text(entries@) =~= grant_pairs(*grant));
        let object = json_string_object(entries);
        match json_to_vec(&object) {
            Ok(body) => Ok(
                HttpRequest {
                    method: HttpMethod::Post,
                    url: self.build_url(OAUTH_TOKEN_PATH),
                    headers: self.default_headers(),
                    body: Some(body),
                    idempotent: true,
                },
            ),
            Err(e) => Err(Error::Serde(e)),
        }
    }

    /// The request that refreshes the access token with the configured
    /// credentials: the token request for their refresh-token grant.
    ///
    /// # Errors
    ///
    /// Returns [`Error::Auth`] if no credentials are configured, or
    /// [`Error::Serde`] if the grant cannot be encoded.
    pub fn refresh_request(&self) -> (r: Result<HttpRequest, Error>)
        ensures
            self@.credential is None ==> (r matches Err(e) && (e matches Error::Auth(m) && m@
                == "No credentials configured"@)),
            self@.credential matches Some(c) ==> refresh_request_for(self@, c, r),
    {
        match self.oauth_refresh_request() {
            Ok(grant) => self.token_request(&grant),
            Err(e) => Err(e),
        }
    }

    /// What obtaining an access token at `now_ms` takes: the cached token
    /// while it is fresh, else a refresh with the configured credentials.
    ///
    /// # Errors
    ///
    /// Returns [`Error::Auth`] if a refresh is needed and no credentials are
    /// configured.
    pub fn token_step(&self, now_ms: u64) -> (r: Result<TokenStep, Error>)
        ensures
            self@.coherent(),
            match r {
                Ok(TokenStep::Cached(token)) => self@.fresh_token(now_ms as int) == Some(token@),
                Ok(TokenStep::Refresh(req)) => self@.fresh_token(now_ms as int) is None && (
                self@.credential matches Some(c) && refresh_request_for(self@, c, Ok(req))),
                Err(e) => self@.fresh_token(now_ms as int) is None && ((self@.credential is None
                    && (e matches Error::Auth(m) && m@ == "No credentials configured"@)) || (
                self@.credential matches Some(c) && refresh_request_for(self@, c, Err(e)))),
            },
            self@.credential is None ==> r is Err,
    {
        proof {
            use_type_invariant(self);
        }
        match self.cached_access_token(now_ms) {
            Some(token) => Ok(TokenStep::Cached(token)),
            None => match self.refresh_request() {
                Ok(req) => Ok(TokenStep::Refresh(req)),
                Err(e) => Err(e),
            },
        }
    }

    /// Caches a token acquired at `now_ms` that lives `expires_in_secs`
    /// seconds, and returns it.
    ///
    /// # Errors
    ///
    /// Returns [`Error::Auth`], caching nothing, if no credentials are
    /// configured (no token can have been acquired without them).
    pub fn store_access_token(&mut self, access_token: String, expires_in_secs: u64, now_ms: u64) -> (r: Result<String, Error>)
        ensures
            old(self)@.credential is Some ==> (r matches Ok(token) && token@ == access_token@
                && final(self)@ == old(self)@.with_token(
                access_token@,
                now_ms + expires_in_secs * 1000,
            )),
            old(self)@.credential is None ==> (final(self)@ == old(self)@ && (r matches Err(e) && (
            e matches Error::Auth(m) && m@ == "No credentials configured"@))),
            final(self)@.coherent(),
    {
        proof {
            use_type_invariant(&*self);
        }
        if self.credential.is_none() {
            return Err(Error::auth("No credentials configured"));
        }
        let token = access_token.clone();
        let expires_at_ms = (now_ms as u128) + (expires_in_secs as u128) * 1000;
        self.access_token = Some(TokenState { access_token, expires_at_ms });
        Ok(token)
    }

    /// Wipes the secrets of the configured credentials (as the client is
    /// dropped), leaving everything else as it was.
    pub fn zeroize_credential(&mut self)
        ensures
            final(self)@ == old(self)@.with_credential_wiped(),
    {
        proof {
            use_type_invariant(&*self);
        }
        if self.credential.is_some() {
            let mut held = Some(TastytradeCredential::new(String::new(), String::new()));
            std::mem::swap(&mut held, &mut self.credential);
            let mut c = held.unwrap();
            c.zeroize();
            self.credential = Some(c);
        }
    }

    /// An authenticated, retry-eligible `GET` of `path`.
    pub fn get_request(&self, path: &str, token: &str) -> (req: HttpRequest)
        ensures
            req.method == HttpMethod::Get,
            req.url@ == self@.url_for(path@),
            header_text(req.headers@) == authed_header_text(
                self@.user_agent,
                self@.accept_version,
                token@,
            ),
            req.body is None,
            req.idempotent,
    {
        HttpRequest {
            method: HttpMethod::Get,
            url: self.build_url(path),
            headers: self.authed_headers(token),
            body: None,
            idempotent: true,
        }
    }

    /// An authenticated `POST` of the JSON `body` to `path`; `idempotent`
    /// decides whether it may be retried (`false` for order-mutating endpoints).
    ///
    /// # Errors
    ///
    /// Returns [`Error::Serde`] if the body cannot be encoded.
    pub fn post_request(&self, path: &str, token: &str, body: &serde_json::Value, idempotent: bool) -> (r: Result<HttpRequest, Error>)
        ensures
            match r {
                Ok(req) => {
                    &&& req.method == HttpMethod::Post
                    &&& req.url@ == self@.url_for(path@)
                    &&& header_text(req.headers@) == authed_header_text(
                        self@.user_agent,
                        self@.accept_version,
                        token@,
                    )
                    &&& req.body matches Some(bytes) && json_encode(*body) matches Ok(encoded) && bytes@ == encoded
                    &&& req.idempotent == idempotent
                },
                Err(e) => json_encode(*body) matches Err(je) && e == Error::Serde(je),
            },
    {
        match json_to_vec(body) {
            Ok(bytes) => Ok(
                HttpRequest {
                    method: HttpMethod::Post,
                    url: self.build_url(path),
                    headers: self.authed_headers(token),
                    body: Some(bytes),
                    idempotent,
                },
            ),
            Err(e) => Err(Error::Serde(e)),
        }
    }

    /// The request for the customer's accounts (`GET /customers/me/accounts`).
    pub fn accounts_request(&self, token: &str) -> (req: HttpRequest)
        ensures
            req.method == HttpMethod::Get,
            req.url@ == self@.url_for(CUSTOMER_ACCOUNTS_PATH@),
            header_text(req.headers@) == authed_header_text(
                self@.user_agent,
                self@.accept_version,
                token@,
            ),
            req.body is None,
            req.idempotent,
    {
        self.get_request(CUSTOMER_ACCOUNTS_PATH, token)
    }

    /// The request for an account-scoped resource, such as
    /// [`BALANCES_RESOURCE`] (`GET /accounts/{account_number}/balances`),
    /// [`POSITIONS_RESOURCE`] or [`LIVE_ORDERS_RESOURCE`].
    pub fn account_resource_request(&self, account_number: &str, resource: &str, token: &str) -> (req: HttpRequest)
        ensures
            req.method == HttpMethod::Get,
            req.url@ == self@.url_for(account_path_text(account_number@, resource@)),
            header_text(req.headers@) == authed_header_text(
                self@.user_agent,
                self@.accept_version,
                token@,
            ),
            req.body is None,
            req.idempotent,
    {
        let path = account_path(account_number, resource);
        self.get_request(path.as_str(), token)
    }

    /// The request that dry-runs `order`
    /// (`POST /accounts/{account_number}/orders/dry-run`). A dry-run validates
    /// the order without sending it to any venue, so it is retry-eligible.
    ///
    /// # Errors
    ///
    /// Returns [`Error::Serde`] if the order cannot be encoded.
    pub fn dry_run_order_request(&self, account_number: &str, token: &str, order: &serde_json::Value) -> (r: Result<HttpRequest, Error>)
        ensures
            match r {
                Ok(req) => {
                    &&& req.method == HttpMethod::Post
                    &&& req.url@ == self@.url_for(
                        account_path_text(account_number@, DRY_RUN_ORDER_RESOURCE@),
                    )
                    &&& header_text(req.headers@) == authed_header_text(
                        self@.user_agent,
                        self@.accept_version,
                        token@,
                    )
                    &&& req.body matches Some(bytes) && json_encode(*order) matches Ok(encoded) && bytes@ == encoded
                    &&& req.idempotent
                },
                Err(e) => json_encode(*order) matches Err(je) && e == Error::Serde(je),
            },
    {
        let path = account_path(account_number, DRY_RUN_ORDER_RESOURCE);
        self.post_request(path.as_str(), token, order, true)
    }

    /// The request for a DXLink quote token (`GET /api-quote-tokens`).
    pub fn quote_token_request(&self, token: &str) -> (req: HttpRequest)
        ensures
            req.method == HttpMethod::Get,
            req.url@ == self@.url_for(API_QUOTE_TOKENS_PATH@),
            header_text(req.headers@) == authed_header_text(
                self@.user_agent,
                self@.accept_version,
                token@,
            ),
            req.body is None,
            req.idempotent,
    {
        self.get_request(API_QUOTE_TOKENS_PATH, token)
    }

    /// Turns a response into its JSON value: a non-success status becomes the
    /// error it is classified as (a 429 carrying the delay that its
    /// `Retry-After` header value, when present, asks for), an empty body
    /// becomes JSON `null`, and any other body is decoded.
    ///
    /// # Errors
    ///
    /// Returns the classified error for a non-success status, or
    /// [`Error::Serde`] if the body is not JSON.
    pub fn parse_response(&self, status: u16, body: &[u8], retry_after: Option<&str>) -> (r: Result<serde_json::Value, Error>)
        ensures
            !is_success(status) && status != 429 ==> (r matches Err(e) && status_error_matches(
                e,
                status,
                utf8_lossy_text(body@),
            )),
            !is_success(status) && status != 429 && vstd::utf8::valid_utf8(body@) ==> (r matches Err(e)
                && status_error_matches(e, status, vstd::utf8::decode_utf8(body@))),
            status == 429 ==> r == Err::<serde_json::Value, Error>(Error::RateLimit {
                retry_after_ms: match retry_after {
                    Some(v) => retry_after_delay_ms(v@),
                    None => None,
                },
            }),
            is_success(status) && body@.len() == 0 ==> (r matches Ok(v) && decodes_to(
                null_text(),
                v,
            )),
            is_success(status) && body@.len() > 0 ==> match json_decode(body@) {
                Ok(v) => r matches Ok(rv) && rv == v,
                Err(je) => r matches Err(e) && e == Error::Serde(je),
            },
            200 <= status && status <= 299 && body@.len() == 0 ==> (r matches Ok(v) && decodes_to(
                null_text(),
                v,
            )),
            200 <= status && status <= 299 && body@.len() > 0 ==> match json_decode(body@) {
                Ok(v) => r matches Ok(rv) && rv == v,
                Err(je) => r matches Err(e) && e == Error::Serde(je),
            },
            200 <= status && status <= 299 ==> (r is Ok || r matches Err(Error::Serde(_))),
            (status < 200 || status > 299) ==> (r is Err && !(r matches Err(Error::Serde(_)))),
    {
        if !(200 <= status && status <= 299) {
            return Err(Error::from_http_response(status, body, retry_after));
        }
        if body.len() == 0 {
            return Ok(json_null());
        }
        match json_from_slice(body) {
            Ok(v) => Ok(v),
            Err(e) => Err(Error::Serde(e)),
        }
    }

    /// How long to wait before retrying a request that failed with `err`:
    /// `None` when it is not retried or no delay was asked for, else the
    /// delay a rate limit's `Retry-After` asked for.
    pub fn retry_wait_ms(idempotent: bool, err: &Error) -> (wait: Option<u64>)
        ensures
            wait == retry_wait(idempotent, *err),
    {
        if idempotent && err.is_retryable() {
            match err {
                Error::RateLimit { retry_after_ms } => *retry_after_ms,
                _ => None,
            }
        } else {
            None
        }
    }

    /// Whether a request that failed with `err` may be retried: only
    /// idempotent requests are, so order-mutating requests are never replayed.
    pub fn should_retry(idempotent: bool, err: &Error) -> (b: bool)
        ensures
            b == retry_allowed(idempotent, *err),
            b == (idempotent && err.retryable()),
            idempotent && err is Server ==> b,
            !idempotent ==> !b,
    {
        idempotent && err.is_retryable()
    }
}

/// The path `/accounts/{account_number}{resource}`.
pub open spec fn account_path_text(account_number: Seq<char>, resource: Seq<char>) -> Seq<char> {
    "/accounts/"@ + account_number + resource
}

/// The path `/accounts/{account_number}{resource}` of an account-scoped
/// endpoint, such as [`BALANCES_RESOURCE`].
pub fn account_path(account_number: &str, resource: &str) -> (path: String)
    ensures
        path@ == account_path_text(account_number@, resource@),
        path@ == "/accounts/"@ + account_number@ + resource@,
{
    let mut path = String::from_str("/accounts/");
    path.append(account_number);
    path.append(resource);
    path
}

/// A token just stored is served until the refresh buffer before its
/// expiry and never after: at any instant `t`, the client hands it out
/// exactly when `t + buffer < acquired + lifetime`; in particular it is
/// served at once whenever its lifetime exceeds the buffer.
pub proof fn lemma_stored_token_served(
    client: ClientView,
    token: Seq<char>,
    expires_in_secs: u64,
    now_ms: u64,
    t: int,
)
    ensures
        ({
            let stored = client.with_token(token, now_ms + expires_in_secs * 1000);
            &&& (stored.fresh_token(t) == Some(token)) <==> (t + client.token_refresh_buffer_secs
                * 1000 < now_ms + expires_in_secs * 1000)
            &&& (stored.fresh_token(t) is None) <==> !(t + client.token_refresh_buffer_secs
                * 1000 < now_ms + expires_in_secs * 1000)
            &&& expires_in_secs > client.token_refresh_buffer_secs ==> stored.fresh_token(now_ms as int)
                == Some(token)
        }),
{
}

/// Freshness only runs out: a token served at some instant is served, the
/// same, at every earlier instant.
pub proof fn lemma_freshness_monotone(client: ClientView, earlier_ms: int, later_ms: int)
    requires
        earlier_ms <= later_ms,
        client.fresh_token(later_ms) is Some,
    ensures
        client.fresh_token(earlier_ms) == client.fresh_token(later_ms),
{
}

/// Authenticated requests carry each header once (as the header map of the
/// transport holds them), including the default ones and the bearer token.
pub proof fn lemma_authed_headers_distinct(
    user_agent: Seq<char>,
    accept_version: Option<Seq<char>>,
    token: Seq<char>,
)
    ensures
        distinct_names(authed_header_text(user_agent, accept_version, token)),
        distinct_names(default_header_text(user_agent)),
        authed_header_text(user_agent, accept_version, token).subrange(0, 3)
            == default_header_text(user_agent),
        authed_header_text(user_agent, accept_version, token)[3] == ("Authorization"@, "Bearer "@
            + token),
{
    reveal_strlit("User-Agent");
    reveal_strlit("Content-Type");
    reveal_strlit("Accept");
    reveal_strlit("Authorization");
    reveal_strlit("Accept-Version");
    let h = authed_header_text(user_agent, accept_version, token);
    assert(h.subrange(0, 3) =~= default_header_text(user_agent));
    assert forall|i: int, j: int| 0 <= i < h.len() && 0 <= j < h.len() && i != j implies #[trigger] h[i].0
        != #[trigger] h[j].0 by {
        assert(h[i].0.len() != h[j].0.len());
    }
}

/// A client without credentials never serves a token: it starts coherent
/// (`new`), every change it can undergo keeps it coherent (overriding the base
/// URL, wiping the credential, and storing a token, which is refused and
/// changes nothing without credentials), and a coherent client without
/// credentials has no fresh token at any instant.
pub proof fn lemma_unauthenticated_never_serves(
    client: ClientView,
    base_url: Seq<char>,
    token: Seq<char>,
    expires_at_ms: int,
    now_ms: int,
)
    requires
        client.coherent(),
    ensures
        client.with_base_url(base_url).coherent(),
        client.with_credential_wiped().coherent(),
        client.credential is Some ==> client.with_token(token, expires_at_ms).coherent(),
        client.with_base_url(base_url).credential == client.credential,
        client.with_credential_wiped().credential is None <==> client.credential is None,
        client.credential is None ==> client.fresh_token(now_ms) is None,
{
}

/// Only retried requests wait, and only as long as a rate limit asked.
pub proof fn lemma_retry_wait_only_when_retried(idempotent: bool, err: Error)
    ensures
        retry_wait(idempotent, err) is Some ==> retry_allowed(idempotent, err),
        !idempotent ==> retry_wait(idempotent, err) is None,
{
}

/// Every 2xx status is a success, and nothing else is: a response with a
/// status from 200 through 299 is decoded, any other status is an error.
pub proof fn lemma_success_is_every_2xx(status: u16)
    ensures
        is_success(status) <==> (200 <= status && status <= 299),
        is_success(200) && is_success(201) && is_success(204) && is_success(299),
        !is_success(199) && !is_success(300) && !is_success(404),
{
}

/// An idempotent request is retried exactly when its error is worth
/// retrying; in particular a server error (5xx), a timeout, a transport
/// failure and a rate limit are retried, and a request that is not
/// idempotent never is.
pub proof fn lemma_retry_exactly_retryable(err: Error)
    ensures
        retry_allowed(true, err) == err.retryable(),
        !retry_allowed(false, err),
        (err is Server || err is Timeout || err is Transport || err is RateLimit) ==> retry_allowed(
            true,
            err,
        ),
        (err is Auth || err is BadRequest || err is Serde) ==> !retry_allowed(true, err),
        err matches Error::Http { status, .. } ==> (retry_allowed(true, err) <==> status >= 500),
{
}

/// A rate-limited idempotent request waits exactly the delay it was asked
/// for; no other error, and no request that is not retried, waits.
pub proof fn lemma_retry_wait_is_asked_delay(idempotent: bool, err: Error)
    ensures
        idempotent ==> (err matches Error::RateLimit { retry_after_ms } ==> retry_wait(
            idempotent,
            err,
        ) == retry_after_ms),
        !(err is RateLimit) ==> retry_wait(idempotent, err) is None,
        !idempotent ==> retry_wait(idempotent, err) is None,
{
}

/// Authenticated headers are the three default ones, then the bearer token,
/// then, whenever a version is pinned (whatever its text), that version:
/// five headers with a pin, four without.
pub proof fn lemma_authed_headers_shape(
    user_agent: Seq<char>,
    accept_version: Option<Seq<char>>,
    token: Seq<char>,
)
    ensures
        ({
            let h = authed_header_text(user_agent, accept_version, token);
            &&& h[0] == ("User-Agent"@, user_agent)
            &&& h[1] == ("Content-Type"@, "application/json"@)
            &&& h[2] == ("Accept"@, "application/json"@)
            &&& h[3] == ("Authorization"@, "Bearer "@ + token)
            &&& accept_version is None ==> h.len() == 4
            &&& accept_version matches Some(v) ==> (h.len() == 5 && h[4] == ("Accept-Version"@, v))
        }),
{
}

/// Requests that are not idempotent (order-mutating ones) are never
/// retried, whatever the error.
pub proof fn lemma_non_idempotent_never_retried(err: Error)
    ensures
        !retry_allowed(false, err),
{
}

/// After the base URL is overridden, every request goes under the new one.
pub proof fn lemma_base_url_override(client: ClientView, base_url: Seq<char>, path: Seq<char>)
    ensures
        client.with_base_url(base_url).url_for(path) == base_url + path,
        client.with_base_url(base_url).token == client.token,
        client.with_base_url(base_url).credential == client.credential,
{
}

} // verus!
