//! Which credentials are at hand. The secret store itself is read
//! elsewhere; here is what its answers mean.

use crate::types::AuthState;
use vstd::prelude::*;

verus! {

/// What the secret store answered when it was asked for a token.
pub enum StoredSecret {
    /// The store could not be opened.
    StoreUnavailable,
    /// The store holds nothing under the name.
    Absent,
    /// The store holds something under the name that is no text.
    NotText,
    /// The store holds this text.
    Text(String),
}

/// The token that an answer of the store gives: the text, where the store
/// holds one.
pub open spec fn token_of(stored: StoredSecret) -> Option<Seq<char>> {
    match stored {
        StoredSecret::Text(token) => Some(token@),
        _ => None,
    }
}

/// The name under which the store holds the token of the source-control
/// host.
pub open spec fn github_token_name() -> Seq<char> {
    "github_access_token"@
}

/// The name under which the store holds the token of the agent service.
pub open spec fn google_token_name() -> Seq<char> {
    "google_refresh_token"@
}

/// The name under which the store holds the token of the source-control
/// host.
pub fn github_token_key() -> (r: &'static str)
    ensures
        r@ == github_token_name(),
{
    "github_access_token"
}

/// The name under which the store holds the token of the agent service.
pub fn google_token_key() -> (r: &'static str)
    ensures
        r@ == google_token_name(),
{
    "google_refresh_token"
}

/// The token of the source-control host, from what the store answered for
/// [`github_token_key`].
pub fn get_github_token(stored: StoredSecret) -> (r: Option<String>)
    ensures
        r.deep_view() == token_of(stored),
{
    match stored {
        StoredSecret::Text(token) => Some(token),
        _ => None,
    }
}

/// The token of the agent service, from what the store answered for
/// [`google_token_key`].
pub fn get_google_token(stored: StoredSecret) -> (r: Option<String>)
    ensures
        r.deep_view() == token_of(stored),
{
    match stored {
        StoredSecret::Text(token) => Some(token),
        _ => None,
    }
}

/// Tells for each of the two services whether a credential is at hand,
/// without giving the credentials away.
pub fn check_auth_status(github: &StoredSecret, google: &StoredSecret) -> (r: AuthState)
    ensures
        r.github_authenticated == token_of(*github) is Some,
        r.google_authenticated == token_of(*google) is Some,
{
    let github_authenticated = match github {
        StoredSecret::Text(_) => true,
        _ => false,
    };
    let google_authenticated = match google {
        StoredSecret::Text(_) => true,
        _ => false,
    };
    AuthState { github_authenticated, google_authenticated }
}

} // verus!
