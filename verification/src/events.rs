//! Events: the typed payloads the server sends to clients.

use vstd::prelude::*;
use crate::models::{Channel, ChannelV, Message, MessageV, UserSafe, UserSafeV};

verus! {

/// One outbound payload. `Establish` is sent once, directly, when a
/// connection becomes active; `Pong` is sent directly to the requester; the
/// rest travel through the pending event queue.
#[derive(Debug)]
pub enum EventEnum {
    /// The one-time handshake: the channels the user can reach, the safe
    /// projections of their co-members, the user's own identifier and the
    /// protocol version.
    Establish { channels: Vec<Channel>, users: Vec<UserSafe>, you: String, version: String },
    /// A chat message, already persisted under `id`.
    MessageSend { id: String, author: String, content: String, channel: String },
    /// A typing report by `user` in `channel`.
    TypeStatus { typing: Option<bool>, channel: String, user: String },
    /// The direct reply to `Ping`, carrying the same data.
    Pong { data: Option<usize> },
}

/// Mathematical view of an [`EventEnum`].
pub enum EventV {
    Establish { channels: Seq<ChannelV>, users: Seq<UserSafeV>, you: Seq<char>, version: Seq<char> },
    MessageSend { id: Seq<char>, author: Seq<char>, content: Seq<char>, channel: Seq<char> },
    TypeStatus { typing: Option<bool>, channel: Seq<char>, user: Seq<char> },
    Pong { data: Option<usize> },
}

impl View for EventEnum {
    type V = EventV;

    open spec fn view(&self) -> EventV {
        match *self {
            EventEnum::Establish { ref channels, ref users, ref you, ref version } => {
                EventV::Establish {
                    channels: channels@.map_values(|c: Channel| c@),
                    users: users@.map_values(|u: UserSafe| u@),
                    you: you@,
                    version: version@,
                }
            },
            EventEnum::MessageSend { ref id, ref author, ref content, ref channel } => {
                EventV::MessageSend {
                    id: id@,
                    author: author@,
                    content: content@,
                    channel: channel@,
                }
            },
            EventEnum::TypeStatus { typing, ref channel, ref user } => {
                EventV::TypeStatus { typing, channel: channel@, user: user@ }
            },
            EventEnum::Pong { data } => EventV::Pong { data },
        }
    }
}

/// Clones a vector of channels, element by element.
fn clone_channels(v: &Vec<Channel>) -> (r: Vec<Channel>)
    ensures
        r@.map_values(|c: Channel| c@) == v@.map_values(|c: Channel| c@),
{
    let mut r: Vec<Channel> = Vec::new();
    let n = v.len();
    let mut i: usize = 0;
    while i < n
        invariant
            i <= n,
            n == v@.len(),
            r@.len() == i,
            forall|j: int| 0 <= j < i ==> (#[trigger] r@[j])@ == v@[j]@,
        decreases n - i,
    {
        r.push(v[i].clone());
        i = i + 1;
    }
    proof {
        assert(r@.map_values(|c: Channel| c@) =~= v@.map_values(|c: Channel| c@));
    }
    r
}

/// Clones a vector of safe user projections, element by element.
fn clone_user_safes(v: &Vec<UserSafe>) -> (r: Vec<UserSafe>)
    ensures
        r@.map_values(|u: UserSafe| u@) == v@.map_values(|u: UserSafe| u@),
{
    let mut r: Vec<UserSafe> = Vec::new();
    let n = v.len();
    let mut i: usize = 0;
    while i < n
        invariant
            i <= n,
            n == v@.len(),
            r@.len() == i,
            forall|j: int| 0 <= j < i ==> (#[trigger] r@[j])@ == v@[j]@,
        decreases n - i,
    {
        r.push(v[i].clone());
        i = i + 1;
    }
    proof {
        assert(r@.map_values(|u: UserSafe| u@) =~= v@.map_values(|u: UserSafe| u@));
    }
    r
}

impl Clone for EventEnum {
    fn clone(&self) -> (r: Self)
        ensures
            r@ == self@,
    {
        match self {
            EventEnum::Establish { channels, users, you, version } => EventEnum::Establish {
                channels: clone_channels(channels),
                users: clone_user_safes(users),
                you: you.clone(),
                version: version.clone(),
            },
            EventEnum::MessageSend { id, author, content, channel } => EventEnum::MessageSend {
                id: id.clone(),
                author: author.clone(),
                content: content.clone(),
                channel: channel.clone(),
            },
            EventEnum::TypeStatus { typing, channel, user } => EventEnum::TypeStatus {
                typing: *typing,
                channel: channel.clone(),
                user: user.clone(),
            },
            EventEnum::Pong { data } => EventEnum::Pong { data: *data },
        }
    }
}

impl EventEnum {
    /// The persisted form of a `MessageSend` event; nothing for any other
    /// variant.
    pub fn message_send(self) -> (r: Option<Message>)
        ensures
            match self@ {
                EventV::MessageSend { id, author, content, channel } => {
                    &&& r matches Some(m)
                    &&& m@ == (MessageV { id, author, content, channel })
                },
                _ => r is None,
            },
    {
        match self {
            EventEnum::MessageSend { id, author, content, channel } => {
                Some(Message { id, author, content, channel })
            },
            _ => None,
        }
    }
}

} // verus!
