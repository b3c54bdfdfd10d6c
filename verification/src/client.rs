//! The thin client value: just the bearer token that authenticates every
//! request. The surrounding I/O layer reads the token to build requests.

use vstd::prelude::*;

verus! {

/// A client for the HTTP API, holding the bearer token.
#[derive(Debug, Clone)]
pub struct WitClient {
    token: String,
}

impl WitClient {
    /// The token this client authenticates with.
    pub closed spec fn spec_token(&self) -> Seq<char> {
        self.token@
    }

    /// A new client around the given bearer token.
    pub fn new(token: &str) -> (r: WitClient)
        ensures
            r.spec_token() == token@,
    {
        WitClient { token: token.to_owned() }
    }

    /// The bearer token, for the request-building layer.
    pub fn token(&self) -> (t: &str)
        ensures
            t@ == self.spec_token(),
    {
        self.token.as_str()
    }
}

} // verus!
