//! Broadcast relay: dispatches inbound frames. A text frame is decoded as
//! JSON — malformed text is silently discarded — and, when valid, the
//! original raw text (not a re-serialized form) is fanned out verbatim to
//! every registered connection. Binary frames are accepted at the protocol
//! level but never forwarded. Pings are answered with the matching pong.

use vstd::prelude::*;

use crate::gate::{is_leader, spec_is_leader, PeerAddr};
use crate::registry::{broadcast_model, ConnModel, Endpoint, Registry};

verus! {

/// Whether a text decodes as syntactically valid JSON; a function of the
/// characters alone.
pub uninterp spec fn json_valid(s: Seq<char>) -> bool;

/// Relies on serde_json::from_str::<Value>: parsing succeeds exactly when
/// the input is syntactically valid JSON, and the outcome depends on the
/// characters alone.
#[verifier::external_body]
fn parse_json_ok(s: &str) -> (r: bool)
    ensures
        r == json_valid(s@),
{
    serde_json::from_str::<serde_json::Value>(s).is_ok()
}

/// One inbound frame from a connection's read loop.
pub enum Frame {
    Text(String),
    Binary(Vec<u8>),
    Ping(Vec<u8>),
    Close,
}

/// What the connection handler must send back for a frame: nothing, or the
/// pong matching a ping.
pub enum Reply {
    Nothing,
    Pong(Vec<u8>),
}

/// The registry after a text frame carrying `text` arrives: unchanged when
/// the text is not valid JSON, otherwise the result of one broadcast pass
/// of the raw text.
pub open spec fn relay_model(s: Seq<ConnModel>, text: Seq<char>) -> Seq<ConnModel> {
    if json_valid(text) {
        broadcast_model(s, text)
    } else {
        s
    }
}

/// Handles a text frame: decodes it as JSON, silently discarding malformed
/// text with no registry mutation, and otherwise broadcasts the original
/// raw text to every registered connection, the sender included.
pub fn relay_text<E: Endpoint>(reg: &mut Registry<E>, text: String)
    ensures
        final(reg).models() == relay_model(old(reg).models(), text@),
        final(reg).save_dir == old(reg).save_dir,
{
    if parse_json_ok(text.as_str()) {
        reg.broadcast(&text);
    }
}

/// Opens one upgraded connection: the leader standing is evaluated once,
/// from the transport-layer peer address of the upgrade request, and the
/// connection is appended to the registry; its read loop then dispatches
/// frames through `handle_frame` until the channel closes.
pub fn open_connection<E: Endpoint>(
    reg: &mut Registry<E>,
    endpoint: E,
    peer: &Option<PeerAddr>,
) -> (ordinal: usize)
    ensures
        ordinal == old(reg).models().len(),
        final(reg).models() == old(reg).models().push(
            ConnModel {
                ordinal: ordinal as int,
                is_leader: spec_is_leader(*peer),
                accepting: endpoint.accepting(),
                delivered: endpoint.delivered(),
            },
        ),
        final(reg).save_dir == old(reg).save_dir,
{
    let leader = is_leader(peer);
    reg.register(endpoint, leader)
}

/// Dispatches one inbound frame: text goes through the relay, binary frames
/// and closes are ignored, and a ping is answered with the matching pong.
/// Only a valid-JSON text frame ever mutates the registry.
pub fn handle_frame<E: Endpoint>(reg: &mut Registry<E>, frame: Frame) -> (reply: Reply)
    ensures
        final(reg).save_dir == old(reg).save_dir,
        match frame {
            Frame::Text(text) => {
                &&& final(reg).models() == relay_model(old(reg).models(), text@)
                &&& reply is Nothing
            },
            Frame::Binary(_) => {
                &&& final(reg).models() == old(reg).models()
                &&& reply is Nothing
            },
            Frame::Ping(payload) => {
                &&& final(reg).models() == old(reg).models()
                &&& reply == Reply::Pong(payload)
            },
            Frame::Close => {
                &&& final(reg).models() == old(reg).models()
                &&& reply is Nothing
            },
        },
{
    match frame {
        Frame::Text(text) => {
            relay_text(reg, text);
            Reply::Nothing
        },
        Frame::Binary(_) => Reply::Nothing,
        Frame::Ping(payload) => Reply::Pong(payload),
        Frame::Close => Reply::Nothing,
    }
}

} // verus!
