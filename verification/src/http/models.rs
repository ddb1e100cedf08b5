//! Typed models for tastytrade REST responses.
//!
//! Most tastytrade REST responses wrap their payload in a `{ "data": ...,
//! "context": ... }` envelope and use `kebab-case` JSON keys. The OAuth token
//! endpoint is a standard (un-enveloped, snake_case) OAuth2 response.

use vstd::prelude::*;

verus! {

/// Standard OAuth2 token response from `POST /oauth/token`.
#[derive(Clone, Debug)]
pub struct OAuthTokenResponse {
    /// Short-lived bearer access token (~15 minute lifetime).
    pub access_token: String,
    /// Token lifetime in seconds.
    pub expires_in: u64,
    /// Token type (expected `"Bearer"`).
    pub token_type: Option<String>,
    /// Granted scope.
    pub scope: Option<String>,
}

/// Generic tastytrade response envelope: `{ "data": <T>, "context": "<path>" }`.
#[derive(Clone, Debug)]
pub struct Envelope<T> {
    pub data: T,
    pub context: Option<String>,
}

/// `data` payload for `GET /customers/me/accounts`.
#[derive(Clone, Debug)]
pub struct AccountsData {
    pub items: Vec<AccountItem>,
}

/// A single entry in the customer's account list.
#[derive(Clone, Debug)]
pub struct AccountItem {
    pub account: AccountInner,
    pub authority_level: Option<String>,
}

/// The nested account object carrying the account number.
#[derive(Clone, Debug)]
pub struct AccountInner {
    pub account_number: String,
    pub nickname: Option<String>,
    pub account_type_name: Option<String>,
}

/// Typed alias for the `GET /customers/me/accounts` response.
pub type AccountsResponse = Envelope<AccountsData>;

/// The body of the OAuth2 refresh-token grant sent to `POST /oauth/token`:
/// `{"grant_type": "refresh_token", "refresh_token": ..., "client_secret": ...}`.
#[derive(Clone, Debug)]
pub struct OAuthRefreshRequest {
    pub grant_type: String,
    pub refresh_token: String,
    pub client_secret: String,
}

/// The account numbers listed in an accounts response, in order.
pub open spec fn account_numbers_of(items: Seq<AccountItem>) -> Seq<Seq<char>> {
    items.map_values(|item: AccountItem| item.account.account_number@)
}

/// Decodes the customer's account numbers from an accounts response, in the
/// order the response lists them.
pub fn account_numbers(resp: &AccountsResponse) -> (numbers: Vec<String>)
    ensures
        numbers@.map_values(|s: String| s@) == account_numbers_of(resp.data.items@),
        numbers@.len() == resp.data.items@.len(),
        forall|i: int|
            0 <= i < numbers@.len() ==> (#[trigger] numbers@[i])@ == resp.data.items@[i].account.account_number@,
{
    let items = &resp.data.items;
    let mut numbers: Vec<String> = Vec::new();
    let mut i: usize = 0;
    while i < items.len()
        invariant
            i <= items@.len(),
            numbers@.len() == i,
            forall|j: int| 0 <= j < i ==> (#[trigger] numbers@[j])@ == items@[j].account.account_number@,
        decreases items@.len() - i,
    {
        numbers.push(items[i].account.account_number.clone());
        i = i + 1;
    }
    assert(numbers@.map_values(|s: String| s@) =~= account_numbers_of(items@));
    numbers
}

/// One account number per listed account, in the order listed, whatever
/// each account's authority level.
pub proof fn lemma_account_numbers_one_per_item(items: Seq<AccountItem>)
    ensures
        account_numbers_of(items).len() == items.len(),
        forall|i: int|
            0 <= i < items.len() ==> #[trigger] account_numbers_of(items)[i]
                == items[i].account.account_number@,
{
}

} // verus!
