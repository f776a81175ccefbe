//! Data records: channels, users, the safe public projection of a user, and
//! persisted messages, together with their mathematical views.

use vstd::prelude::*;
use indexmap::IndexSet;
use crate::iset::{iset_clone, iset_elems};

verus! {

/// A channel: its identifier and the identifiers of its members.
#[derive(Debug)]
pub struct Channel {
    pub id: String,
    pub members: IndexSet<String>,
}

/// Mathematical view of a [`Channel`].
pub struct ChannelV {
    pub id: Seq<char>,
    pub members: Seq<Seq<char>>,
}

impl View for Channel {
    type V = ChannelV;

    open spec fn view(&self) -> ChannelV {
        ChannelV { id: self.id@, members: iset_elems(self.members) }
    }
}

impl Clone for Channel {
    fn clone(&self) -> (r: Self)
        ensures
            r@ == self@,
    {
        Channel { id: self.id.clone(), members: iset_clone(&self.members) }
    }
}

/// A user record as the durable store keeps it, session tokens included.
#[derive(Debug)]
pub struct User {
    pub id: String,
    pub username: String,
    pub sessions: IndexSet<String>,
}

/// Mathematical view of a [`User`].
pub struct UserV {
    pub id: Seq<char>,
    pub username: Seq<char>,
    pub sessions: Seq<Seq<char>>,
}

impl View for User {
    type V = UserV;

    open spec fn view(&self) -> UserV {
        UserV { id: self.id@, username: self.username@, sessions: iset_elems(self.sessions) }
    }
}

impl Clone for User {
    fn clone(&self) -> (r: Self)
        ensures
            r@ == self@,
    {
        User {
            id: self.id.clone(),
            username: self.username.clone(),
            sessions: iset_clone(&self.sessions),
        }
    }
}

/// The part of a [`User`] that may be shown to other users: no sessions.
#[derive(Debug)]
pub struct UserSafe {
    pub id: String,
    pub username: String,
}

/// Mathematical view of a [`UserSafe`].
pub struct UserSafeV {
    pub id: Seq<char>,
    pub username: Seq<char>,
}

impl View for UserSafe {
    type V = UserSafeV;

    open spec fn view(&self) -> UserSafeV {
        UserSafeV { id: self.id@, username: self.username@ }
    }
}

impl Clone for UserSafe {
    fn clone(&self) -> (r: Self)
        ensures
            r@ == self@,
    {
        UserSafe { id: self.id.clone(), username: self.username.clone() }
    }
}

impl UserSafe {
    /// The safe projection of a user: the same identifier and name, with the
    /// session tokens dropped.
    pub fn from(value: User) -> (r: Self)
        ensures
            r.id@ == value.id@,
            r.username@ == value.username@,
    {
        UserSafe { id: value.id, username: value.username }
    }
}

/// A chat message as it is persisted: who wrote what, in which channel.
#[derive(Debug)]
pub struct Message {
    pub id: String,
    pub author: String,
    pub content: String,
    pub channel: String,
}

/// Mathematical view of a [`Message`].
pub struct MessageV {
    pub id: Seq<char>,
    pub author: Seq<char>,
    pub content: Seq<char>,
    pub channel: Seq<char>,
}

impl View for Message {
    type V = MessageV;

    open spec fn view(&self) -> MessageV {
        MessageV {
            id: self.id@,
            author: self.author@,
            content: self.content@,
            channel: self.channel@,
        }
    }
}

impl Clone for Message {
    fn clone(&self) -> (r: Self)
        ensures
            r@ == self@,
    {
        Message {
            id: self.id.clone(),
            author: self.author.clone(),
            content: self.content.clone(),
            channel: self.channel.clone(),
        }
    }
}

} // verus!
