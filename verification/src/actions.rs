//! Actions: the typed requests a client sends to the server.

use vstd::prelude::*;

verus! {

/// One inbound client request, after decoding. Anything that fails to
/// decode into one of these variants is dropped before it reaches the
/// dispatcher.
#[derive(Debug)]
pub enum ActionEnum {
    /// The handshake is server-initiated; a client-sent `Establish` does
    /// nothing.
    Establish,
    /// A liveness probe, answered directly with `Pong` carrying the same
    /// data.
    Ping { data: Option<usize> },
    /// Send `content` to every other member of `channel`.
    MessageSend { content: String, channel: String },
    /// Report that the sender is (or is no longer) typing in `channel`.
    TypeStatus { typing: Option<bool>, channel: String },
}

} // verus!
