//! The log/search sink: its endpoint address and authorization value. The
//! caller performs the HTTP calls.

use vstd::prelude::*;
use vstd::string::*;

verus! {

/// The log/search sink: the document-insert endpoint of one index, and the
/// token that authorizes writes to it.
pub struct Zinc {
    pub url: String,
    pub token: String,
}

impl Zinc {
    /// A sink handle for the given base address, index and token.
    pub fn new(base_url: &str, indice: &str, token: &str) -> (z: Zinc)
        ensures
            z.url@ == "https://"@ + base_url@ + "/api/default/"@ + indice@ + "/_json"@,
            z.token@ == token@,
    {
        Zinc {
            url: String::from_str("https://")
                .concat(base_url)
                .concat("/api/default/")
                .concat(indice)
                .concat("/_json"),
            token: token.to_owned(),
        }
    }

    /// The authorization header value for this sink.
    pub fn basic(&self) -> (r: String)
        ensures
            r@ == "Basic "@ + self.token@,
    {
        String::from_str("Basic ").concat(self.token.as_str())
    }
}

} // verus!
