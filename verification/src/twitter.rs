//! Request parameters for a legacy microblogging API: the mentions
//! timeline, a mention search, and a status update. The caller signs and
//! performs the HTTP calls.

use vstd::prelude::*;
use vstd::string::*;

verus! {

/// Parameters of a mentions-timeline request.
pub struct MentionsTimeline {
    pub since_id: String,
    pub include_entities: String,
}

impl MentionsTimeline {
    /// A request for mentions newer than `since_id`, without entities.
    pub fn new(since_id: &str) -> (r: MentionsTimeline)
        ensures
            r.since_id@ == since_id@,
            r.include_entities@ == "false"@,
    {
        MentionsTimeline {
            since_id: since_id.to_owned(),
            include_entities: String::from_str("false"),
        }
    }

    /// The request's query parameters, as name-value pairs.
    pub fn get_params(self) -> (r: Vec<(String, String)>)
        ensures
            r@.len() == 2,
            r@[0].0@ == "since_id"@ && r@[0].1@ == self.since_id@,
            r@[1].0@ == "include_entities"@ && r@[1].1@ == self.include_entities@,
    {
        let mut v: Vec<(String, String)> = Vec::new();
        v.push((String::from_str("since_id"), self.since_id));
        v.push((String::from_str("include_entities"), self.include_entities));
        v
    }
}

/// Parameters of a search request for recent mentions.
pub struct SearchTweets {
    pub q: String,
    pub include_entities: String,
    pub result_type: String,
    pub tweet_mode: String,
    pub since_id: String,
}

impl SearchTweets {
    /// A search for `query` newer than `since_id`, in extended mode.
    pub fn new(query: &str, since_id: &str) -> (r: SearchTweets)
        ensures
            r.q@ == query@,
            r.include_entities@ == "false"@,
            r.result_type@ == "recent"@,
            r.tweet_mode@ == "extended"@,
            r.since_id@ == since_id@,
    {
        SearchTweets {
            q: query.to_owned(),
            include_entities: String::from_str("false"),
            result_type: String::from_str("recent"),
            tweet_mode: String::from_str("extended"),
            since_id: since_id.to_owned(),
        }
    }

    /// The request's query parameters, as name-value pairs.
    pub fn get_params(self) -> (r: Vec<(String, String)>)
        ensures
            r@.len() == 5,
            r@[0].0@ == "q"@ && r@[0].1@ == self.q@,
            r@[1].0@ == "include_entities"@ && r@[1].1@ == self.include_entities@,
            r@[2].0@ == "result_type"@ && r@[2].1@ == self.result_type@,
            r@[3].0@ == "tweet_mode"@ && r@[3].1@ == self.tweet_mode@,
            r@[4].0@ == "since_id"@ && r@[4].1@ == self.since_id@,
    {
        let mut v: Vec<(String, String)> = Vec::new();
        v.push((String::from_str("q"), self.q));
        v.push((String::from_str("include_entities"), self.include_entities));
        v.push((String::from_str("result_type"), self.result_type));
        v.push((String::from_str("tweet_mode"), self.tweet_mode));
        v.push((String::from_str("since_id"), self.since_id));
        v
    }
}

/// Parameters of a status update.
pub struct Tweet {
    pub status: String,
}

impl Tweet {
    /// A status update posting `message`.
    pub fn new(message: &str) -> (r: Tweet)
        ensures
            r.status@ == message@,
    {
        Tweet { status: message.to_owned() }
    }

    /// The request's form parameters, as name-value pairs.
    pub fn get_params(self) -> (r: Vec<(String, String)>)
        ensures
            r@.len() == 1,
            r@[0].0@ == "status"@ && r@[0].1@ == self.status@,
    {
        let mut v: Vec<(String, String)> = Vec::new();
        v.push((String::from_str("status"), self.status));
        v
    }
}

} // verus!
