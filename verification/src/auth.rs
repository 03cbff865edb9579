//! Authorization token for requests to the alerting API.

use vstd::prelude::*;

verus! {

/// A token used to authorize requests to the alerting API.
///
/// The token is an opaque string; no validation of its format is performed.
/// Rejection of a bad token, if any, happens remotely and surfaces as a
/// `Forbidden` or `BadRequest` response.
pub struct AuthToken {
    token: String,
}

impl View for AuthToken {
    type V = Seq<char>;

    closed spec fn view(&self) -> Seq<char> {
        self.token@
    }
}

impl AuthToken {
    /// Wrap a raw token string.
    pub fn new(raw_token: &str) -> (r: AuthToken)
        ensures
            r@ == raw_token@,
    {
        AuthToken { token: raw_token.to_owned() }
    }

    /// Render the token into the authorization header value.
    pub fn to_header(&self) -> (r: String)
        ensures
            r@ == self@,
    {
        self.token.clone()
    }
}

} // verus!
