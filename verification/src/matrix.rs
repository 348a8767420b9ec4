//! A team-chat backend speaking the federated room protocol: the address of
//! a room-message send, with the room identifier percent-encoded and a
//! caller-supplied timestamp as transaction id. The caller performs the
//! HTTP calls.

use vstd::prelude::*;
use vstd::string::*;

use crate::text::{dec_str, u64_to_string};
use crate::trusted::{percent_encoded, url_encode};

verus! {

/// The chat backend: its base address and access token.
pub struct Matrix {
    pub base_url: String,
    pub token: String,
}

/// The address that sends a room message: the percent-encoded room
/// identifier, qualified by the server name, with `ts` as transaction id.
pub open spec fn spec_message_url(base: Seq<char>, room: Seq<u8>, ts: u64) -> Seq<char> {
    "https://"@ + base + "/_matrix/client/v3/rooms/"@ + percent_encoded(room) + ":"@ + base
        + "/send/m.room.message/"@ + dec_str(ts as nat)
}

impl Matrix {
    /// A backend handle for the given base address and token.
    pub fn new(base_url: String, token: String) -> (m: Matrix)
        ensures
            m.base_url@ == base_url@,
            m.token@ == token@,
    {
        Matrix { base_url, token }
    }

    /// The authorization header value for this backend.
    pub fn bearer(&self) -> (r: String)
        ensures
            r@ == "Bearer "@ + self.token@,
    {
        String::from_str("Bearer ").concat(self.token.as_str())
    }

    /// The address that sends a message to `room_id`, using `ts` (a
    /// caller-supplied clock reading) as the transaction id.
    pub fn message_url(&self, room_id: &str, ts: u64) -> (r: String)
        ensures
            r@ == spec_message_url(self.base_url@, room_id.spec_bytes(), ts),
    {
        let room = url_encode(room_id);
        String::from_str("https://")
            .concat(self.base_url.as_str())
            .concat("/_matrix/client/v3/rooms/")
            .concat(room.as_str())
            .concat(":")
            .concat(self.base_url.as_str())
            .concat("/send/m.room.message/")
            .concat(u64_to_string(ts).as_str())
    }
}

} // verus!
