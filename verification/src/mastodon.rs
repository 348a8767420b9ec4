//! The notification source: endpoint addresses and request parameters for a
//! federated microblogging account. The caller performs the HTTP calls.

use vstd::prelude::*;
use vstd::string::*;

verus! {

/// The notification source's account: its base address and access token.
pub struct Mastodon {
    pub base_uri: String,
    pub access_token: String,
}

impl Mastodon {
    /// A source handle for the given base address and token.
    pub fn new(base_uri: &str, access_token: &str) -> (m: Mastodon)
        ensures
            m.base_uri@ == base_uri@,
            m.access_token@ == access_token@,
    {
        Mastodon { base_uri: base_uri.to_owned(), access_token: access_token.to_owned() }
    }

    /// The endpoint that posts a status (used for acknowledgement replies).
    pub fn statuses_url(&self) -> (r: String)
        ensures
            r@ == self.base_uri@ + "/api/v1/statuses"@,
    {
        self.base_uri.clone().concat("/api/v1/statuses")
    }

    /// The endpoint that lists notifications.
    pub fn notifications_url(&self) -> (r: String)
        ensures
            r@ == self.base_uri@ + "/api/v1/notifications/"@,
    {
        self.base_uri.clone().concat("/api/v1/notifications/")
    }

    /// The endpoint that searches statuses.
    pub fn search_url(&self) -> (r: String)
        ensures
            r@ == self.base_uri@ + "/api/v2/search/"@,
    {
        self.base_uri.clone().concat("/api/v2/search/")
    }

    /// The endpoint that clears all notifications.
    pub fn clear_notifications_url(&self) -> (r: String)
        ensures
            r@ == self.base_uri@ + "/api/v1/notifications/clear"@,
    {
        self.base_uri.clone().concat("/api/v1/notifications/clear")
    }

    /// The authorization header value for this account.
    pub fn bearer(&self) -> (r: String)
        ensures
            r@ == "Bearer "@ + self.access_token@,
    {
        String::from_str("Bearer ").concat(self.access_token.as_str())
    }

    /// The query parameters that fetch mention notifications newer than
    /// `since_id`.
    pub fn notifications_params(since_id: &str) -> (r: Vec<(String, String)>)
        ensures
            r@.len() == 2,
            r@[0].0@ == "types[]"@ && r@[0].1@ == "mention"@,
            r@[1].0@ == "since_id"@ && r@[1].1@ == since_id@,
    {
        let mut v: Vec<(String, String)> = Vec::new();
        v.push((String::from_str("types[]"), String::from_str("mention")));
        v.push((String::from_str("since_id"), since_id.to_owned()));
        v
    }

    /// The query parameters that search for statuses newer than `min_id`
    /// naming the watched account.
    pub fn search_params(min_id: &str) -> (r: Vec<(String, String)>)
        ensures
            r@.len() == 3,
            r@[0].0@ == "min_id"@ && r@[0].1@ == min_id@,
            r@[1].0@ == "q"@ && r@[1].1@ == "atareao"@,
            r@[2].0@ == "type"@ && r@[2].1@ == "statuses"@,
    {
        let mut v: Vec<(String, String)> = Vec::new();
        v.push((String::from_str("min_id"), min_id.to_owned()));
        v.push((String::from_str("q"), String::from_str("atareao")));
        v.push((String::from_str("type"), String::from_str("statuses")));
        v
    }
}

} // verus!
