//! The action dispatcher's rules: how one inbound action is interpreted
//! against the sender's identity and channel membership, and which events
//! it gives rise to. The durable-store lookups themselves happen outside;
//! these functions take their results as plain values.

use vstd::prelude::*;
use vstd::string::StrSliceExecFns;
use crate::actions::ActionEnum;
use crate::events::{EventEnum, EventV};
use crate::iset::{iset_clone, iset_elems, iset_shift_remove};
use crate::seqs::lemma_remove_value_props;
use crate::models::{Channel, Message, MessageV};
use crate::state::EventMessage;

verus! {

/// What the dispatcher decides to do with one inbound action, before any
/// durable-store lookup.
pub enum ActionStep {
    /// Nothing to do: the handshake is server-initiated, so a client-sent
    /// `Establish` is ignored.
    Ignore,
    /// Write this event straight back to the requester's socket, bypassing
    /// the pending event queue: the reply targets the requester alone.
    Reply(EventEnum),
    /// A chat message: the caller must look up the channel, confirming the
    /// sender's membership, and then build the fan-out with
    /// [`prepare_message_send`].
    FanOutMessage { content: String, channel: String },
    /// A typing report: the caller must look up the channel, confirming
    /// the sender's membership, and then build the fan-out with
    /// [`prepare_typing_event`].
    FanOutTyping { typing: Option<bool>, channel: String },
}

/// Interprets one inbound action: `Establish` is ignored, `Ping` is
/// answered directly with a `Pong` carrying the same data, and the two
/// fan-out actions are handed on with their fields, pending the membership
/// check.
pub fn classify_action(action: ActionEnum) -> (step: ActionStep)
    ensures
        match action {
            ActionEnum::Establish => step is Ignore,
            ActionEnum::Ping { data } => {
                &&& step matches ActionStep::Reply(e)
                &&& e@ == (EventV::Pong { data })
            },
            ActionEnum::MessageSend { content, channel } => {
                &&& step matches ActionStep::FanOutMessage { content: c, channel: ch }
                &&& c@ == content@
                &&& ch@ == channel@
            },
            ActionEnum::TypeStatus { typing, channel } => {
                &&& step matches ActionStep::FanOutTyping { typing: t, channel: ch }
                &&& t == typing
                &&& ch@ == channel@
            },
        },
{
    match action {
        ActionEnum::Establish => ActionStep::Ignore,
        ActionEnum::Ping { data } => ActionStep::Reply(EventEnum::Pong { data }),
        ActionEnum::MessageSend { content, channel } => ActionStep::FanOutMessage {
            content,
            channel,
        },
        ActionEnum::TypeStatus { typing, channel } => ActionStep::FanOutTyping {
            typing,
            channel,
        },
    }
}

/// The whitespace characters: space, tab, line feed, form feed, carriage
/// return.
pub open spec fn whitespace_char(c: char) -> bool {
    c == ' ' || c == '\t' || c == '\n' || c == '\u{c}' || c == '\r'
}

/// Whether the text is nothing but whitespace — a message with no content
/// once whitespace is stripped, which is dropped rather than sent.
pub open spec fn blank(s: Seq<char>) -> bool {
    forall|i: int| 0 <= i < s.len() ==> whitespace_char(#[trigger] s[i])
}

/// Decides whether a message body is blank: empty after stripping
/// whitespace.
pub fn is_blank(content: &String) -> (r: bool)
    ensures
        r == blank(content@),
{
    let s = content.as_str();
    let n = s.unicode_len();
    let mut i: usize = 0;
    while i < n
        invariant
            i <= n,
            n == content@.len(),
            s@ == content@,
            forall|j: int| 0 <= j < i ==> whitespace_char(#[trigger] content@[j]),
        decreases n - i,
    {
        let c = s.get_char(i);
        if c != ' ' && c != '\t' && c != '\n' && c != '\u{c}' && c != '\r' {
            return false;
        }
        i += 1;
    }
    true
}

/// Builds the fan-out for a chat message. `channel` is the result of the
/// membership lookup: nothing at all — no such channel, the sender is not
/// a member, or the lookup failed — means the action is dropped, as does a
/// blank body. Otherwise the message record to persist and the event to
/// enqueue come back; the event's targets are the channel's members minus
/// the sender — fan-out never targets the sender. `message_id` is the
/// identifier the message will be persisted under.
pub fn prepare_message_send(
    author: &String,
    content: String,
    channel: Option<Channel>,
    message_id: String,
) -> (r: Option<(Message, EventMessage)>)
    ensures
        match channel {
            None => r is None,
            Some(ch) => {
                if blank(content@) {
                    r is None
                } else {
                    &&& r matches Some((msg, ev))
                    &&& msg@ == (MessageV {
                        id: message_id@,
                        author: author@,
                        content: content@,
                        channel: ch.id@,
                    })
                    &&& ev@.author == author@
                    &&& ev@.targets == iset_elems(ch.members).remove_value(author@)
                    &&& ev@.targets.no_duplicates()
                    &&& !ev@.targets.contains(author@)
                    &&& ev@.item == (EventV::MessageSend {
                        id: message_id@,
                        author: author@,
                        content: content@,
                        channel: ch.id@,
                    })
                }
            },
        },
{
    let ch = match channel {
        Some(c) => c,
        None => {
            return None;
        },
    };
    if is_blank(&content) {
        return None;
    }
    let mut targets = iset_clone(&ch.members);
    proof {
        lemma_remove_value_props(iset_elems(targets), author@);
    }
    iset_shift_remove(&mut targets, author);
    let item = EventEnum::MessageSend {
        id: message_id.clone(),
        author: author.clone(),
        content: content.clone(),
        channel: ch.id.clone(),
    };
    let msg = Message { id: message_id, author: author.clone(), content, channel: ch.id };
    let ev = EventMessage { author: author.clone(), targets, item };
    Some((msg, ev))
}

/// Builds the fan-out for a typing report. As with a message, no channel
/// means the action is dropped; otherwise the event targets the channel's
/// members minus the sender and carries the typing flag.
pub fn prepare_typing_event(
    author: &String,
    typing: Option<bool>,
    channel: Option<Channel>,
) -> (r: Option<EventMessage>)
    ensures
        match channel {
            None => r is None,
            Some(ch) => {
                &&& r matches Some(ev)
                &&& ev@.author == author@
                &&& ev@.targets == iset_elems(ch.members).remove_value(author@)
                &&& ev@.targets.no_duplicates()
                &&& !ev@.targets.contains(author@)
                &&& ev@.item == (EventV::TypeStatus {
                    typing,
                    channel: ch.id@,
                    user: author@,
                })
            },
        },
{
    let ch = match channel {
        Some(c) => c,
        None => {
            return None;
        },
    };
    let mut targets = iset_clone(&ch.members);
    proof {
        lemma_remove_value_props(iset_elems(targets), author@);
    }
    iset_shift_remove(&mut targets, author);
    let item = EventEnum::TypeStatus { typing, channel: ch.id, user: author.clone() };
    Some(EventMessage { author: author.clone(), targets, item })
}

} // verus!
