//! URL helpers for the tastytrade adapter.

use vstd::prelude::*;

use crate::common::enums::TastytradeEnvironment;

verus! {

/// Returns the REST base URL for the given environment.
pub fn rest_url(environment: TastytradeEnvironment) -> (url: &'static str)
    ensures
        url@ == environment.spec_rest_url(),
{
    environment.rest_url()
}

/// Returns the account notification WebSocket URL for the given environment.
pub fn ws_account_url(environment: TastytradeEnvironment) -> (url: &'static str)
    ensures
        url@ == environment.spec_ws_account_url(),
{
    environment.ws_account_url()
}

} // verus!
