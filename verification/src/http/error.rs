//! Error types for tastytrade REST operations.

use vstd::prelude::*;
use vstd::string::*;

use crate::common::text::{
    decimal_string, decimal_text, digits_value, is_ascii_digit, is_digits, lemma_decimal_reads_back,
};

verus! {

/// Error type for tastytrade operations.
#[derive(Debug)]
pub enum Error {
    /// Transport layer errors (network, connection issues).
    Transport(String),
    /// JSON serialization/deserialization errors.
    Serde(serde_json::Error),
    /// Authentication errors (missing/invalid credentials, expired token).
    Auth(String),
    /// Rate limiting errors.
    RateLimit { retry_after_ms: Option<u64> },
    /// Bad request errors (client-side invalid payload).
    BadRequest(String),
    /// Server-side errors from the tastytrade API.
    Server(String),
    /// Request timeout.
    Timeout,
    /// HTTP errors with status code.
    Http { status: u16, message: String },
}

/// What `String::from_utf8_lossy` returns for the given bytes.
pub uninterp spec fn utf8_lossy_text(bytes: Seq<u8>) -> Seq<char>;

/// Calls `String::from_utf8_lossy` and takes the result as an owned string.
/// Its contract claims that the result is a function of the bytes, named
/// `utf8_lossy_text`, and, as std documents, that valid UTF-8 decodes to the
/// very characters it encodes (only invalid sequences are replaced).
#[verifier::external_body]
fn utf8_lossy(bytes: &[u8]) -> (text: String)
    ensures
        text@ == utf8_lossy_text(bytes@),
        vstd::utf8::valid_utf8(bytes@) ==> text@ == vstd::utf8::decode_utf8(bytes@),
{
    String::from_utf8_lossy(bytes).to_string()
}

/// The message `HTTP {status}: {message}`.
pub open spec fn status_message(status: u16, message: Seq<char>) -> Seq<char> {
    "HTTP "@ + decimal_text(status as nat) + ": "@ + message
}

/// The error that a response with a non-success `status` and a body that
/// decodes to `message` is classified as.
pub open spec fn status_error_matches(e: Error, status: u16, message: Seq<char>) -> bool {
    if status == 401 || status == 403 {
        e matches Error::Auth(m) && m@ == status_message(status, message)
    } else if status == 400 || status == 422 {
        e matches Error::BadRequest(m) && m@ == status_message(status, message)
    } else if status == 429 {
        e matches Error::RateLimit { retry_after_ms } && retry_after_ms is None
    } else if 500 <= status && status <= 599 {
        e matches Error::Server(m) && m@ == status_message(status, message)
    } else {
        e matches Error::Http { status: s, message: m } && s == status && m@ == message
    }
}

impl Error {
    /// Whether an error is worth retrying.
    pub open spec fn retryable(&self) -> bool {
        match self {
            Error::Transport(_) | Error::Timeout | Error::RateLimit { .. } | Error::Server(_) => true,
            Error::Http { status, .. } => *status >= 500,
            _ => false,
        }
    }

    /// Whether an error is due to authentication.
    pub open spec fn is_auth(&self) -> bool {
        self is Auth
    }

    /// Creates a transport error.
    pub fn transport(msg: &str) -> (e: Self)
        ensures
            e matches Error::Transport(m) && m@ == msg@,
    {
        Error::Transport(String::from_str(msg))
    }

    /// Creates an auth error.
    pub fn auth(msg: &str) -> (e: Self)
        ensures
            e matches Error::Auth(m) && m@ == msg@,
    {
        Error::Auth(String::from_str(msg))
    }

    /// Creates a bad request error.
    pub fn bad_request(msg: &str) -> (e: Self)
        ensures
            e matches Error::BadRequest(m) && m@ == msg@,
    {
        Error::BadRequest(String::from_str(msg))
    }

    /// Creates a server error.
    pub fn server(msg: &str) -> (e: Self)
        ensures
            e matches Error::Server(m) && m@ == msg@,
    {
        Error::Server(String::from_str(msg))
    }

    /// Creates an HTTP error.
    pub fn http(status: u16, message: &str) -> (e: Self)
        ensures
            e matches Error::Http { status: s, message: m } && s == status && m@ == message@,
    {
        Error::Http { status, message: String::from_str(message) }
    }

    /// Creates an error from an HTTP status code and response body.
    pub fn from_http_status(status: u16, body: &[u8]) -> (e: Self)
        ensures
            status_error_matches(e, status, utf8_lossy_text(body@)),
            (status == 401 || status == 403) ==> (e matches Error::Auth(m) && m@ == "HTTP "@
                + decimal_text(status as nat) + ": "@ + utf8_lossy_text(body@)),
            (status == 400 || status == 422) ==> (e matches Error::BadRequest(m) && m@ == "HTTP "@
                + decimal_text(status as nat) + ": "@ + utf8_lossy_text(body@)),
            status == 429 ==> e == (Error::RateLimit { retry_after_ms: None }),
            500 <= status && status <= 599 ==> (e matches Error::Server(m) && m@ == "HTTP "@
                + decimal_text(status as nat) + ": "@ + utf8_lossy_text(body@)),
            e is Http ==> !(status == 400 || status == 401 || status == 403 || status == 422
                || status == 429 || (500 <= status && status <= 599)),
            e matches Error::Http { status: s, message: m } ==> (s == status && m@
                == utf8_lossy_text(body@)),
            vstd::utf8::valid_utf8(body@) ==> status_error_matches(
                e,
                status,
                vstd::utf8::decode_utf8(body@),
            ),
    {
        let message = utf8_lossy(body);
        if status == 401 || status == 403 || status == 400 || status == 422 || (500 <= status
            && status <= 599) {
            let mut text = String::from_str("HTTP ");
            let digits = decimal_string(status as u64);
            text.append(digits.as_str());
            text.append(": ");
            text.append(message.as_str());
            if status == 401 || status == 403 {
                Error::Auth(text)
            } else if status == 400 || status == 422 {
                Error::BadRequest(text)
            } else {
                Error::Server(text)
            }
        } else if status == 429 {
            Error::RateLimit { retry_after_ms: None }
        } else {
            Error::Http { status, message }
        }
    }

    /// Creates an error from an HTTP response: as [`Error::from_http_status`],
    /// except that a 429 carries the delay its `Retry-After` header asks for.
    pub fn from_http_response(status: u16, body: &[u8], retry_after: Option<&str>) -> (e: Self)
        ensures
            status != 429 ==> status_error_matches(e, status, utf8_lossy_text(body@)),
            status != 429 && vstd::utf8::valid_utf8(body@) ==> status_error_matches(
                e,
                status,
                vstd::utf8::decode_utf8(body@),
            ),
            status == 429 ==> e == (Error::RateLimit {
                retry_after_ms: match retry_after {
                    Some(v) => retry_after_delay_ms(v@),
                    None => None,
                },
            }),
    {
        if status == 429 {
            let retry_after_ms = match retry_after {
                Some(v) => parse_retry_after_ms(v),
                None => None,
            };
            Error::RateLimit { retry_after_ms }
        } else {
            Self::from_http_status(status, body)
        }
    }

    /// Maps a failure of the HTTP transport, given by its rendered text, to a
    /// transport error `HTTP client error: {error}`.
    pub fn from_http_client(error: &str) -> (e: Self)
        ensures
            e matches Error::Transport(m) && m@ == "HTTP client error: "@ + error@,
    {
        let mut text = String::from_str("HTTP client error: ");
        text.append(error);
        Error::Transport(text)
    }

    /// Returns `true` if the error is retryable.
    pub fn is_retryable(&self) -> (b: bool)
        ensures
            b == self.retryable(),
    {
        match self {
            Error::Transport(_) | Error::Timeout | Error::RateLimit { .. } | Error::Server(_) => true,
            Error::Http { status, .. } => *status >= 500,
            _ => false,
        }
    }

    /// Returns `true` if the error is due to authentication.
    pub fn is_auth_error(&self) -> (b: bool)
        ensures
            b == self.is_auth(),
    {
        matches!(self, Error::Auth(_))
    }
}

/// The largest number of seconds whose milliseconds fit in a `u64`.
pub open spec fn max_delay_secs() -> nat {
    (u64::MAX / 1000) as nat
}

/// The delay, in milliseconds, that a `Retry-After` value asks for: a
/// number of seconds written in decimal digits (RFC 9110 `delay-seconds`),
/// saturated at `u64::MAX`; any other form (such as an HTTP date) asks for
/// none.
pub open spec fn retry_after_delay_ms(value: Seq<char>) -> Option<u64> {
    if is_digits(value) {
        if digits_value(value) > max_delay_secs() {
            Some(u64::MAX)
        } else {
            Some((digits_value(value) * 1000) as u64)
        }
    } else {
        None
    }
}

/// A `Retry-After` of `n` seconds, written in decimal, asks for `n * 1000`
/// milliseconds (saturated at `u64::MAX`); a value that is not digits, such
/// as an empty one, asks for nothing.
pub proof fn lemma_retry_after_seconds(n: nat, value: Seq<char>)
    ensures
        n * 1000 <= u64::MAX ==> retry_after_delay_ms(decimal_text(n)) == Some((n * 1000) as u64),
        n * 1000 > u64::MAX ==> retry_after_delay_ms(decimal_text(n)) == Some(u64::MAX),
        value.len() == 0 ==> retry_after_delay_ms(value) is None,
        (exists|i: int| 0 <= i < value.len() && !is_ascii_digit(#[trigger] value[i]))
            ==> retry_after_delay_ms(value) is None,
{
    lemma_decimal_reads_back(n);
    assert(n * 1000 <= u64::MAX <==> n <= max_delay_secs()) by (nonlinear_arith)
        requires
            max_delay_secs() == u64::MAX / 1000,
    ;
}

/// Reads the delay a `Retry-After` header value asks for, in milliseconds.
pub fn parse_retry_after_ms(value: &str) -> (delay: Option<u64>)
    ensures
        delay == retry_after_delay_ms(value@),
{
    broadcast use vstd::string::group_string_axioms;

    let cap: u64 = 18446744073709552;  // max_delay_secs() + 1
    let mut acc: u64 = 0;
    let mut any = false;
    for c in it: value.chars()
        invariant
            it.seq() == value@,
            cap == max_delay_secs() + 1,
            any == (it.index() > 0),
            forall|j: int| 0 <= j < it.index() ==> #[trigger] is_ascii_digit(value@[j]),
            acc == (if digits_value(value@.take(it.index() as int)) >= cap {
                cap as nat
            } else {
                digits_value(value@.take(it.index() as int))
            }),
    {
        if !('0' <= c && c <= '9') {
            assert(value@[it.index() as int] == c);
            assert(!is_ascii_digit(value@[it.index() as int]));
            return None;
        }
        let ghost prefix = value@.take(it.index() as int);
        let ghost next = value@.take(it.index() + 1);
        assert(next.drop_last() =~= prefix);
        assert(next.last() == c);
        let d = (c as u32 - '0' as u32) as u64;
        if acc < cap {
            acc = acc * 10 + d;
            if acc > cap {
                acc = cap;
            }
        } else {
            assert(digits_value(next) >= digits_value(prefix));
        }
        any = true;
    }
    assert(value@.take(value@.len() as int) =~= value@);
    if !any {
        return None;
    }
    if acc >= cap {
        Some(u64::MAX)
    } else {
        assert(digits_value(value@) * 1000 <= u64::MAX) by (nonlinear_arith)
            requires
                digits_value(value@) <= max_delay_secs(),
                max_delay_secs() == u64::MAX / 1000,
        ;
        Some(acc * 1000)
    }
}

/// How a failed HTTP status is classified: it is an authentication error
/// exactly for 401 and 403, and it is worth retrying exactly when the server
/// asked to slow down (429) or answered with a status of 500 or above (any
/// status from 600 up is kept as a generic HTTP error, which retries too).
pub proof fn lemma_status_classification(status: u16, message: Seq<char>, e: Error)
    requires
        status_error_matches(e, status, message),
    ensures
        e.is_auth() <==> (status == 401 || status == 403),
        e.retryable() <==> (status == 429 || status >= 500),
{
}

/// What each failed status is classified as, for every status and body
/// text: 401/403 authentication, 400/422 bad request, 429 rate limit, every
/// status from 500 through 599 a server error, all carrying
/// `HTTP {status}: {body}`; only the remaining statuses are generic HTTP
/// errors, carrying the status and the body text as they are.
pub proof fn lemma_status_error_kinds(status: u16, message: Seq<char>, e: Error)
    requires
        status_error_matches(e, status, message),
    ensures
        (status == 401 || status == 403) ==> (e matches Error::Auth(m) && m@ == "HTTP "@
            + decimal_text(status as nat) + ": "@ + message),
        (status == 400 || status == 422) ==> (e matches Error::BadRequest(m) && m@ == "HTTP "@
            + decimal_text(status as nat) + ": "@ + message),
        status == 429 ==> e == (Error::RateLimit { retry_after_ms: None }),
        500 <= status && status <= 599 ==> (e matches Error::Server(m) && m@ == "HTTP "@
            + decimal_text(status as nat) + ": "@ + message),
        !(status == 400 || status == 401 || status == 403 || status == 422 || status == 429 || (
        500 <= status && status <= 599)) ==> (e matches Error::Http { status: s, message: m } && s
            == status && m@ == message),
{
}

/// No authentication error is ever worth retrying: a refused credential is
/// refused again.
pub proof fn lemma_auth_errors_not_retryable(e: Error)
    ensures
        e.is_auth() ==> !e.retryable(),
{
}

} // verus!
