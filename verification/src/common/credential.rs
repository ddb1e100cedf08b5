//! OAuth2 credentials for the tastytrade adapter.

use vstd::prelude::*;
use vstd::string::*;

use crate::common::text::{is_blank, is_blank_text};
use crate::http::error::Error;

verus! {

/// The environment variable that holds the OAuth provider (client) secret.
pub const PROVIDER_SECRET_VAR: &'static str = "TASTYTRADE_PROVIDER_SECRET";

/// The environment variable that holds the OAuth refresh token.
pub const REFRESH_TOKEN_VAR: &'static str = "TASTYTRADE_REFRESH_TOKEN";

/// Returns the `(provider_secret, refresh_token)` environment variable names.
pub fn credential_env_vars() -> (names: (&'static str, &'static str))
    ensures
        names.0@ == PROVIDER_SECRET_VAR@,
        names.1@ == REFRESH_TOKEN_VAR@,
{
    (PROVIDER_SECRET_VAR, REFRESH_TOKEN_VAR)
}

/// The characters of an optional string.
pub open spec fn opt_text(s: Option<&str>) -> Option<Seq<char>> {
    match s {
        Some(t) => Some(t@),
        None => None,
    }
}

/// The value that a credential field takes: an explicit value that is not
/// blank, else a value from the environment that is not empty, else none.
pub open spec fn chosen_value(explicit: Option<Seq<char>>, from_env: Option<Seq<char>>) -> Option<
    Seq<char>,
> {
    if explicit matches Some(v) && !is_blank_text(v) {
        explicit
    } else if from_env matches Some(v) && v.len() > 0 {
        from_env
    } else {
        None
    }
}

/// The message of the error returned when the environment holds no credentials.
pub open spec fn missing_env_message() -> Seq<char> {
    PROVIDER_SECRET_VAR@ + " and "@ + REFRESH_TOKEN_VAR@ + " environment variables are required"@
}

/// The text that `Display` renders for a credential.
pub open spec fn display_text(c: TastytradeCredential) -> Seq<char> {
    "TastytradeCredential(***redacted***)"@
}

/// The text that `Debug` renders for a credential.
pub open spec fn debug_text(c: TastytradeCredential) -> Seq<char> {
    "TastytradeCredential { provider_secret: \"***redacted***\", refresh_token: \"***redacted***\" }"@
}

/// tastytrade OAuth2 credentials.
///
/// The long-lived `refresh_token` plus the application's `provider_secret`
/// (client secret) are exchanged at `POST /oauth/token` for a short-lived
/// access token, which the HTTP client manages.
#[derive(Clone)]
pub struct TastytradeCredential {
    provider_secret: String,
    refresh_token: String,
}

impl View for TastytradeCredential {
    /// `(provider_secret, refresh_token)`.
    type V = (Seq<char>, Seq<char>);

    closed spec fn view(&self) -> (Seq<char>, Seq<char>) {
        (self.provider_secret@, self.refresh_token@)
    }
}

impl TastytradeCredential {
    /// Creates a new [`TastytradeCredential`] instance.
    pub fn new(provider_secret: String, refresh_token: String) -> (c: Self)
        ensures
            c@ == (provider_secret@, refresh_token@),
    {
        TastytradeCredential { provider_secret, refresh_token }
    }

    /// Resolves credentials from provided values or, failing those, the values
    /// of the [`credential_env_vars`] variables (read by the caller), returning
    /// `None` when no complete pair results. Blank provided values count as
    /// absent, and so do empty environment values.
    pub fn resolve(
        provider_secret: Option<&str>,
        refresh_token: Option<&str>,
        env_provider_secret: Option<&str>,
        env_refresh_token: Option<&str>,
    ) -> (c: Option<Self>)
        ensures
            ({
                let secret = chosen_value(opt_text(provider_secret), opt_text(env_provider_secret));
                let refresh = chosen_value(opt_text(refresh_token), opt_text(env_refresh_token));
                match c {
                    Some(cred) => secret is Some && refresh is Some && cred@ == (
                        secret->0,
                        refresh->0,
                    ),
                    None => secret is None || refresh is None,
                }
            }),
    {
        let secret = Self::pick_value(provider_secret, env_provider_secret);
        let refresh = Self::pick_value(refresh_token, env_refresh_token);
        match (secret, refresh) {
            (Some(s), Some(r)) => Some(Self::new(String::from_str(s), String::from_str(r))),
            _ => None,
        }
    }

    fn pick_value<'a>(explicit: Option<&'a str>, from_env: Option<&'a str>) -> (v: Option<&'a str>)
        ensures
            opt_text(v) == chosen_value(opt_text(explicit), opt_text(from_env)),
    {
        if let Some(value) = explicit {
            if !is_blank(value) {
                return Some(value);
            }
        }
        if let Some(value) = from_env {
            if !value.is_empty() {
                return Some(value);
            }
        }
        None
    }

    /// Loads credentials from the values of the [`credential_env_vars`]
    /// variables (read by the caller).
    ///
    /// # Errors
    ///
    /// Returns [`Error::Auth`] if the environment variables are unset or empty.
    pub fn from_env(env_provider_secret: Option<&str>, env_refresh_token: Option<&str>) -> (r:
        Result<Self, Error>)
        ensures
            ({
                let secret = chosen_value(None, opt_text(env_provider_secret));
                let refresh = chosen_value(None, opt_text(env_refresh_token));
                match r {
                    Ok(cred) => secret is Some && refresh is Some && cred@ == (
                        secret->0,
                        refresh->0,
                    ),
                    Err(e) => (secret is None || refresh is None) && (e matches Error::Auth(m)
                        && m@ == missing_env_message()),
                }
            }),
    {
        match Self::resolve(None, None, env_provider_secret, env_refresh_token) {
            Some(cred) => Ok(cred),
            None => {
                let (secret_var, refresh_var) = credential_env_vars();
                let mut message = String::from_str(secret_var);
                message.append(" and ");
                message.append(refresh_var);
                message.append(" environment variables are required");
                Err(Error::Auth(message))
            },
        }
    }

    /// Returns the OAuth provider (client) secret.
    pub fn provider_secret(&self) -> (s: &str)
        ensures
            s@ == self@.0,
    {
        self.provider_secret.as_str()
    }

    /// Returns the OAuth refresh token.
    pub fn refresh_token(&self) -> (s: &str)
        ensures
            s@ == self@.1,
    {
        self.refresh_token.as_str()
    }

    /// Wipes both secrets from memory, leaving them empty.
    pub fn zeroize(&mut self)
        ensures
            final(self)@ == (Seq::<char>::empty(), Seq::<char>::empty()),
    {
        zeroize_string(&mut self.provider_secret);
        zeroize_string(&mut self.refresh_token);
    }

    /// The `Display` rendering, which never shows the secrets.
    pub fn to_display_string(&self) -> (s: String)
        ensures
            s@ == display_text(*self),
    {
        String::from_str("TastytradeCredential(***redacted***)")
    }

    /// The `Debug` rendering, which shows the field names but never their values.
    pub fn to_debug_string(&self) -> (s: String)
        ensures
            s@ == debug_text(*self),
    {
        String::from_str(
            "TastytradeCredential { provider_secret: \"***redacted***\", refresh_token: \"***redacted***\" }",
        )
    }
}

/// Calls `zeroize::Zeroize::zeroize` on a string; its contract claims that the
/// string is left empty, as the crate's source shows (the bytes are
/// overwritten with zeros and the string is cleared).
#[verifier::external_body]
fn zeroize_string(s: &mut String)
    ensures
        final(s)@ == Seq::<char>::empty(),
{
    zeroize::Zeroize::zeroize(s)
}

/// Explicit credentials win: when both provided values are not blank, the
/// environment is never consulted, whatever it holds.
pub proof fn lemma_explicit_values_win(
    secret: Seq<char>,
    refresh: Seq<char>,
    env_secret: Option<Seq<char>>,
    env_refresh: Option<Seq<char>>,
)
    requires
        !is_blank_text(secret),
        !is_blank_text(refresh),
    ensures
        chosen_value(Some(secret), env_secret) == Some(secret),
        chosen_value(Some(refresh), env_refresh) == Some(refresh),
{
}

/// The environment fills in for a provided value that is absent or blank,
/// when its own value is not empty; with neither, the field is unresolved.
pub proof fn lemma_env_fallback(explicit: Option<Seq<char>>, from_env: Seq<char>)
    ensures
        (explicit is None || (explicit matches Some(v) && is_blank_text(v))) && from_env.len() > 0
            ==> chosen_value(explicit, Some(from_env)) == Some(from_env),
        (explicit is None || (explicit matches Some(v) && is_blank_text(v))) ==> chosen_value(
            explicit,
            None,
        ) is None,
        (explicit is None || (explicit matches Some(v) && is_blank_text(v))) ==> chosen_value(
            explicit,
            Some(Seq::<char>::empty()),
        ) is None,
{
}

/// A resolved credential never holds an empty secret or token: blank
/// provided values and empty environment values are both passed over.
pub proof fn lemma_resolved_fields_not_empty(
    explicit: Option<Seq<char>>,
    from_env: Option<Seq<char>>,
)
    ensures
        chosen_value(explicit, from_env) matches Some(v) ==> v.len() > 0,
{
    if let Some(v) = explicit {
        if !is_blank_text(v) {
            assert(v.len() > 0);
        }
    }
}

/// Secrets are never rendered: what `Display` and `Debug` show of a
/// credential is the same for every credential, whatever its secret and token.
pub proof fn lemma_rendering_hides_secrets(a: TastytradeCredential, b: TastytradeCredential)
    ensures
        display_text(a) == display_text(b),
        debug_text(a) == debug_text(b),
{
}

} // verus!
