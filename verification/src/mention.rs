//! The mention handler.
//!
//! A message event mentions the account when its text references the
//! account's own identity. The rule is asymmetric, deliberately kept as the
//! bot has always applied it: with a formatted body present, the lower-cased
//! full identity must appear in the lower-cased formatted body; with none,
//! the identity's local part alone must appear in the lower-cased plain
//! body. The account's own messages are never mentions. A detected mention
//! is relayed into the control channel, and, when the debug flag is set,
//! acknowledged in place as a threaded reply.

use crate::message::{
    is_notice_reply, is_text_message, notice_reply, text_message, OutgoingMessage,
};
use crate::text::{
    contains_seq, contains_str, local_part, local_part_of, lower_of, lowercase, str_eq,
};
use vstd::prelude::*;
use vstd::string::*;

verus! {

/// View of an optional formatted body.
pub open spec fn opt_view(o: Option<String>) -> Option<Seq<char>> {
    match o {
        Some(s) => Some(s@),
        None => None,
    }
}

/// The detection rule. `own` is the account's full identity, `sender` the
/// message's sender, `body` its plain body, `formatted` its formatted body
/// when one is present.
pub open spec fn is_mention_spec(
    own: Seq<char>,
    sender: Seq<char>,
    body: Seq<char>,
    formatted: Option<Seq<char>>,
) -> bool {
    &&& sender != own
    &&& match formatted {
        Some(f) => contains_seq(lower_of(f), lower_of(own)),
        None => contains_seq(lower_of(body), local_part_of(lower_of(own))),
    }
}

/// Decides whether a message event mentions the account `own_mxid`.
pub fn is_mention(own_mxid: &str, sender: &str, body: &str, formatted_body: &Option<String>) -> (r:
    bool)
    ensures
        r == is_mention_spec(own_mxid@, sender@, body@, opt_view(*formatted_body)),
{
    if str_eq(sender, own_mxid) {
        return false;
    }
    match formatted_body {
        Some(f) => {
            let lf = lowercase(f.as_str());
            let lo = lowercase(own_mxid);
            contains_str(lf.as_str(), lo.as_str())
        },
        None => {
            let lb = lowercase(body);
            let lo = lowercase(own_mxid);
            let lp = local_part(lo.as_str());
            contains_str(lb.as_str(), lp)
        },
    }
}

/// Law: a message the account sent itself is never classified as a mention,
/// whatever its body or formatted body holds.
pub proof fn lemma_self_message_excluded(
    own: Seq<char>,
    body: Seq<char>,
    formatted: Option<Seq<char>>,
)
    ensures
        !is_mention_spec(own, own, body, formatted),
{
}

/// The text relayed into the control channel for one mention.
pub open spec fn relay_text_of(sender: Seq<char>, body: Seq<char>, room: Seq<char>) -> Seq<char> {
    "> <"@ + sender + "> "@ + body + "\n\n Mention in "@ + room + " by "@ + sender
}

/// The text of the threaded in-place acknowledgement sent in debug mode.
pub open spec fn debug_reply_text_of(sender: Seq<char>, body: Seq<char>) -> Seq<char> {
    "> <"@ + sender + "> "@ + body + "\n\n[DEBUG] Mentioned main account about this mention"@
}

/// Builds the control-channel relay text for one mention.
pub fn relay_text(sender: &str, body: &str, room_id: &str) -> (r: String)
    ensures
        r@ == relay_text_of(sender@, body@, room_id@),
{
    let mut r = String::from_str("> <");
    r.append(sender);
    r.append("> ");
    r.append(body);
    r.append("\n\n Mention in ");
    r.append(room_id);
    r.append(" by ");
    r.append(sender);
    r
}

/// Builds the in-place acknowledgement text sent in debug mode.
pub fn debug_reply_text(sender: &str, body: &str) -> (r: String)
    ensures
        r@ == debug_reply_text_of(sender@, body@),
{
    let mut r = String::from_str("> <");
    r.append(sender);
    r.append("> ");
    r.append(body);
    r.append("\n\n[DEBUG] Mentioned main account about this mention");
    r
}

/// The messages that relay one detected mention: in debug mode a threaded
/// acknowledgement into the room first, then always the relay into the
/// control channel.
pub open spec fn mention_msgs_ok(
    msgs: Seq<OutgoingMessage>,
    room: Seq<char>,
    control_room: Seq<char>,
    sender: Seq<char>,
    event_id: Seq<char>,
    body: Seq<char>,
    debug: bool,
) -> bool {
    if debug {
        &&& msgs.len() == 2
        &&& is_notice_reply(msgs[0], room, debug_reply_text_of(sender, body), event_id)
        &&& is_text_message(msgs[1], control_room, relay_text_of(sender, body, room))
    } else {
        &&& msgs.len() == 1
        &&& is_text_message(msgs[0], control_room, relay_text_of(sender, body, room))
    }
}

/// Relays one detected mention from `room_id`, sent by `sender` with plain
/// body `body`, into `control_room_id`.
pub fn handle_mention(
    room_id: &str,
    control_room_id: &str,
    sender: &str,
    event_id: &str,
    body: &str,
    debug: bool,
) -> (msgs: Vec<OutgoingMessage>)
    ensures
        mention_msgs_ok(msgs@, room_id@, control_room_id@, sender@, event_id@, body@, debug),
{
    let mut msgs: Vec<OutgoingMessage> = Vec::new();
    if debug {
        let t = debug_reply_text(sender, body);
        msgs.push(notice_reply(room_id, t, event_id));
    }
    let t = relay_text(sender, body, room_id);
    msgs.push(text_message(control_room_id, t));
    msgs
}

} // verus!
