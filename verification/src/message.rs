//! Outbound room-message requests.
//!
//! The engine never talks to the network itself: it builds request values
//! that the transport layer sends. Every request carries a fresh random
//! transaction id, as the protocol asks of message sends.

use rand::distributions::Alphanumeric;
use rand::{thread_rng, Rng};
use vstd::prelude::*;

verus! {

/// The kind of a room message: ordinary text or a notice.
#[derive(Debug, Clone, PartialEq, Eq)]
pub enum MsgKind {
    Text,
    Notice,
}

/// One outbound room-message request, ready for the transport to send.
#[derive(Debug, Clone, PartialEq)]
pub struct OutgoingMessage {
    /// Room the message is posted into.
    pub room_id: String,
    /// Fresh transaction id; 30 random ASCII alphanumeric characters.
    pub txn_id: String,
    /// Text or notice.
    pub kind: MsgKind,
    /// The message body.
    pub body: String,
    /// Event id this message replies to, if it is a threaded reply.
    pub in_reply_to: Option<String>,
}

/// `c` is one of the 62 ASCII letters and digits.
pub open spec fn is_ascii_alphanumeric(c: char) -> bool {
    ||| 'a' as u32 <= c as u32 && c as u32 <= 'z' as u32
    ||| 'A' as u32 <= c as u32 && c as u32 <= 'Z' as u32
    ||| '0' as u32 <= c as u32 && c as u32 <= '9' as u32
}

/// `s` is a well-formed transaction id: 30 ASCII alphanumeric characters,
/// safe to splice into a request path.
pub open spec fn is_txn_id(s: Seq<char>) -> bool {
    &&& s.len() == 30
    &&& forall|i: int| 0 <= i < s.len() ==> is_ascii_alphanumeric(#[trigger] s[i])
}

/// Relies on rand's `thread_rng`, `Alphanumeric` and `Rng::sample_iter`:
/// returns a fresh transaction id of 30 random characters, each drawn from
/// the 62 ASCII letters and digits.
#[verifier::external_body]
pub(crate) fn random_txn_id() -> (r: String)
    ensures
        is_txn_id(r@),
{
    thread_rng().sample_iter(&Alphanumeric).take(30).collect()
}

/// `m` is a plain text message with body `body` posted into `room`.
pub open spec fn is_text_message(m: OutgoingMessage, room: Seq<char>, body: Seq<char>) -> bool {
    &&& m.room_id@ == room
    &&& m.kind is Text
    &&& m.body@ == body
    &&& m.in_reply_to is None
    &&& is_txn_id(m.txn_id@)
}

/// `m` is a notice with body `body` posted into `room`, not a reply.
pub open spec fn is_notice_message(m: OutgoingMessage, room: Seq<char>, body: Seq<char>) -> bool {
    &&& m.room_id@ == room
    &&& m.kind is Notice
    &&& m.body@ == body
    &&& m.in_reply_to is None
    &&& is_txn_id(m.txn_id@)
}

/// `m` is a notice with body `body` posted into `room` in reply to `related_event`.
pub open spec fn is_notice_reply(
    m: OutgoingMessage,
    room: Seq<char>,
    body: Seq<char>,
    related_event: Seq<char>,
) -> bool {
    &&& m.room_id@ == room
    &&& m.kind is Notice
    &&& m.body@ == body
    &&& (m.in_reply_to matches Some(e) && e@ == related_event)
    &&& is_txn_id(m.txn_id@)
}

/// Builds a plain text message for `room_id` with body `body`.
pub fn text_message(room_id: &str, body: String) -> (m: OutgoingMessage)
    ensures
        is_text_message(m, room_id@, body@),
{
    OutgoingMessage {
        room_id: room_id.to_owned(),
        txn_id: random_txn_id(),
        kind: MsgKind::Text,
        body,
        in_reply_to: None,
    }
}

/// Builds a notice for `room_id` with body `body`.
pub fn notice_message(room_id: &str, body: String) -> (m: OutgoingMessage)
    ensures
        is_notice_message(m, room_id@, body@),
{
    OutgoingMessage {
        room_id: room_id.to_owned(),
        txn_id: random_txn_id(),
        kind: MsgKind::Notice,
        body,
        in_reply_to: None,
    }
}

/// Builds a notice for `room_id` with body `body`, threaded as a reply to
/// `related_event`.
pub fn notice_reply(room_id: &str, body: String, related_event: &str) -> (m: OutgoingMessage)
    ensures
        is_notice_reply(m, room_id@, body@, related_event@),
{
    OutgoingMessage {
        room_id: room_id.to_owned(),
        txn_id: random_txn_id(),
        kind: MsgKind::Notice,
        body,
        in_reply_to: Some(related_event.to_owned()),
    }
}

} // verus!
