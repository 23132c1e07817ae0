//! What an OAuth broker hands to a lens.

use vstd::prelude::*;
use crate::text::join2;

verus! {

/// OAuth token payload returned by the broker.
#[derive(Debug, Clone)]
pub struct OAuthToken {
    pub access_token: String,
    pub refresh_token: Option<String>,
    pub expires_at: Option<std::time::SystemTime>,
    pub scope: Option<String>,
}

/// OAuth broker errors.
#[derive(Debug)]
pub enum OAuthError {
    /// The user has not connected the provider.
    NotConnected(String),
    /// The token has expired.
    Expired,
    /// The token could not be fetched.
    NetworkError(String),
}

impl OAuthError {
    /// The printed form of the error.
    pub open spec fn text(&self) -> Seq<char> {
        match self {
            OAuthError::NotConnected(provider) => "OAuth provider not connected: "@ + provider@,
            OAuthError::Expired => "OAuth token expired"@,
            OAuthError::NetworkError(cause) => "OAuth token fetch failed: "@ + cause@,
        }
    }

    /// The printed form of the error.
    pub fn to_string(&self) -> (r: String)
        ensures
            r@ == self.text(),
    {
        match self {
            OAuthError::NotConnected(provider) => join2(
                "OAuth provider not connected: ",
                provider.as_str(),
            ),
            OAuthError::Expired => String::from_str("OAuth token expired"),
            OAuthError::NetworkError(cause) => join2("OAuth token fetch failed: ", cause.as_str()),
        }
    }
}

} // verus!
