//! A team-chat backend: endpoint addresses, the post body, and the lookup of
//! a channel by its name in a fetched channel list. The caller performs the
//! HTTP calls.

use vstd::prelude::*;
use vstd::string::*;

use crate::text::str_eq;

verus! {

/// The chat backend: its base address and access token.
pub struct Mattermost {
    pub base_uri: String,
    pub token: String,
}

/// One channel of the chat backend, as its channel list reports it.
pub struct Channel {
    pub name: String,
    pub id: String,
}

/// The mathematical model of a channel: its name and identifier.
pub struct ChannelModel {
    pub name: Seq<char>,
    pub id: Seq<char>,
}

impl View for Channel {
    type V = ChannelModel;

    open spec fn view(&self) -> ChannelModel {
        ChannelModel { name: self.name@, id: self.id@ }
    }
}

impl DeepView for Channel {
    type V = ChannelModel;

    open spec fn deep_view(&self) -> ChannelModel {
        self.view()
    }
}

/// The body of a chat post: destination channel, text, and the optional
/// thread root.
pub struct PostBody {
    pub channel_id: String,
    pub message: String,
    pub root_id: Option<String>,
}

/// The identifier of the first channel in `cs` named `name`.
pub open spec fn find_channel(cs: Seq<ChannelModel>, name: Seq<char>) -> Option<Seq<char>>
    decreases cs.len(),
{
    if cs.len() == 0 {
        None
    } else if cs[0].name == name {
        Some(cs[0].id)
    } else {
        find_channel(cs.drop_first(), name)
    }
}

impl Mattermost {
    /// A backend handle for the given base address and token.
    pub fn new(base_uri: &str, token: &str) -> (m: Mattermost)
        ensures
            m.base_uri@ == base_uri@,
            m.token@ == token@,
    {
        Mattermost { base_uri: base_uri.to_owned(), token: token.to_owned() }
    }

    /// The endpoint that creates a post.
    pub fn posts_url(&self) -> (r: String)
        ensures
            r@ == self.base_uri@ + "/api/v4/posts"@,
    {
        self.base_uri.clone().concat("/api/v4/posts")
    }

    /// The endpoint that lists channels.
    pub fn channels_url(&self) -> (r: String)
        ensures
            r@ == self.base_uri@ + "/api/v4/channels"@,
    {
        self.base_uri.clone().concat("/api/v4/channels")
    }

    /// The authorization header value for this backend.
    pub fn bearer(&self) -> (r: String)
        ensures
            r@ == "Bearer "@ + self.token@,
    {
        String::from_str("Bearer ").concat(self.token.as_str())
    }

    /// The body of a post of `message` to `channel_id`, threaded under
    /// `root_id` when one is given.
    pub fn post_body(channel_id: &str, message: &str, root_id: Option<&str>) -> (b: PostBody)
        ensures
            b.channel_id@ == channel_id@,
            b.message@ == message@,
            match root_id {
                Some(r) => b.root_id is Some && b.root_id.unwrap()@ == r@,
                None => b.root_id is None,
            },
    {
        PostBody {
            channel_id: channel_id.to_owned(),
            message: message.to_owned(),
            root_id: match root_id {
                Some(r) => Some(r.to_owned()),
                None => None,
            },
        }
    }

    /// The identifier of the first channel named `name` in a fetched
    /// channel list, if any.
    pub fn get_channel_by_name(channels: &Vec<Channel>, name: &str) -> (r: Option<String>)
        ensures
            match r {
                Some(id) => find_channel(channels.deep_view(), name@) == Some(id@),
                None => find_channel(channels.deep_view(), name@) is None,
            },
    {
        let ghost cs = channels.deep_view();
        assert(cs.subrange(0, cs.len() as int) =~= cs);
        let mut i: usize = 0;
        while i < channels.len()
            invariant
                i <= channels.len(),
                cs == channels.deep_view(),
                cs.len() == channels.len(),
                find_channel(cs, name@) == find_channel(cs.subrange(i as int, cs.len() as int), name@),
            decreases channels.len() - i,
        {
            assert(cs.subrange(i as int, cs.len() as int)[0] == cs[i as int]);
            if str_eq(channels[i].name.as_str(), name) {
                return Some(channels[i].id.clone());
            }
            assert(cs.subrange(i as int, cs.len() as int).drop_first() =~= cs.subrange(
                i as int + 1,
                cs.len() as int,
            ));
            i = i + 1;
        }
        assert(cs.subrange(cs.len() as int, cs.len() as int) =~= Seq::<ChannelModel>::empty());
        None
    }
}

} // verus!
