//! The sync loop and dispatcher.
//!
//! Per account the bot keeps a resumable cursor into the server's event
//! stream. Each turn of the loop fetches the next delta batch, persists the
//! batch's cursor, and dispatches the batch: every invite notice becomes an
//! invite-handler plan and every message event a mention-handler plan. The
//! plans are independent, so the transport can fail one without aborting
//! the others or the cursor advance.

use crate::invite::{invite_plan, is_invite_plan, Action};
use crate::mention::{handle_mention, is_mention, is_mention_spec, mention_msgs_ok, opt_view};
use crate::message::OutgoingMessage;
use crate::store::{cursor_key_of, save_cursor, KvStore};
use vstd::prelude::*;
use vstd::string::*;

verus! {

/// One message event from a joined room's timeline.
#[derive(Debug, Clone, PartialEq)]
pub struct MessageEvent {
    /// Identity of the user who sent the message.
    pub sender: String,
    /// Unique id of the event.
    pub event_id: String,
    /// Plain body.
    pub body: String,
    /// Formatted body, when the message carries one.
    pub formatted_body: Option<String>,
}

/// One event of a joined room's timeline, as the dispatcher sees it.
#[derive(Debug, Clone, PartialEq)]
pub enum RoomEvent {
    /// A text message.
    Message(MessageEvent),
    /// Any other event; the dispatcher ignores it.
    Other,
}

/// The timeline delta of one joined room.
#[derive(Debug, Clone, PartialEq)]
pub struct JoinedRoomUpdate {
    /// The room's identifier.
    pub room_id: String,
    /// New timeline events, oldest first.
    pub timeline: Vec<RoomEvent>,
}

/// One unit of synchronization progress, as returned by the transport.
#[derive(Debug, Clone, PartialEq)]
pub struct DeltaBatch {
    /// The cursor to resume from once this batch is processed.
    pub next_batch: String,
    /// Rooms the account was invited to.
    pub invited_rooms: Vec<String>,
    /// Timeline deltas of joined rooms.
    pub joined_rooms: Vec<JoinedRoomUpdate>,
}

/// The server-side filter the loop syncs with.
#[derive(Debug, Clone, PartialEq)]
pub struct SyncFilter {
    /// Timeline event types the server should send.
    pub timeline_types: Vec<String>,
}

/// Builds the sync filter: only room messages are fetched, which keeps the
/// payload to what the dispatcher reacts to.
pub fn generate_filter() -> (f: SyncFilter)
    ensures
        f.timeline_types@.len() == 1,
        f.timeline_types@[0]@ == "m.room.message"@,
{
    let mut timeline_types: Vec<String> = Vec::new();
    timeline_types.push(String::from_str("m.room.message"));
    SyncFilter { timeline_types }
}

/// The reaction to one classified event of a batch.
#[derive(Debug, Clone, PartialEq)]
pub enum Plan {
    /// Reaction to one room invitation.
    Invite { room_id: String, actions: Vec<Action> },
    /// Reaction to one message event; `messages` is empty when the event
    /// is no mention.
    Message { room_id: String, event_id: String, messages: Vec<OutgoingMessage> },
}

/// `p` is the reaction to an invitation into `room`.
pub open spec fn invite_plan_ok(
    p: Plan,
    room: Seq<char>,
    target_user: Seq<char>,
    message: Seq<char>,
) -> bool {
    p matches Plan::Invite { room_id, actions } && room_id@ == room && is_invite_plan(
        actions@,
        room,
        target_user,
        message,
    )
}

/// `p` is the reaction to message event `ev` in `room`: the mention relay
/// when the event mentions the account `own`, nothing otherwise.
pub open spec fn message_plan_ok(
    p: Plan,
    room: Seq<char>,
    ev: MessageEvent,
    own: Seq<char>,
    control_room: Seq<char>,
    debug: bool,
) -> bool {
    p matches Plan::Message { room_id, event_id, messages } && room_id@ == room && event_id@
        == ev.event_id@ && if is_mention_spec(
        own,
        ev.sender@,
        ev.body@,
        opt_view(ev.formatted_body),
    ) {
        mention_msgs_ok(messages@, room, control_room, ev.sender@, ev.event_id@, ev.body@, debug)
    } else {
        messages@.len() == 0
    }
}

/// The message events of one room's timeline, each tagged with the room.
pub open spec fn room_messages(room: Seq<char>, timeline: Seq<RoomEvent>) -> Seq<
    (Seq<char>, MessageEvent),
>
    decreases timeline.len(),
{
    if timeline.len() == 0 {
        Seq::empty()
    } else {
        let rest = room_messages(room, timeline.drop_last());
        match timeline.last() {
            RoomEvent::Message(m) => rest.push((room, m)),
            RoomEvent::Other => rest,
        }
    }
}

/// All message events of a batch's joined rooms, in room order and
/// timeline order.
pub open spec fn all_messages(rooms: Seq<JoinedRoomUpdate>) -> Seq<(Seq<char>, MessageEvent)>
    decreases rooms.len(),
{
    if rooms.len() == 0 {
        Seq::empty()
    } else {
        all_messages(rooms.drop_last()) + room_messages(
            rooms.last().room_id@,
            rooms.last().timeline@,
        )
    }
}

/// The dispatcher's contract: one invite plan per invitation, in order,
/// then one message plan per message event, in order.
pub open spec fn dispatch_ok(
    plans: Seq<Plan>,
    batch: DeltaBatch,
    own: Seq<char>,
    target_user: Seq<char>,
    message: Seq<char>,
    control_room: Seq<char>,
    debug: bool,
) -> bool {
    let n_inv = batch.invited_rooms@.len() as int;
    let msgs = all_messages(batch.joined_rooms@);
    &&& plans.len() == n_inv + msgs.len()
    &&& forall|i: int|
        0 <= i < n_inv ==> invite_plan_ok(
            #[trigger] plans[i],
            batch.invited_rooms@[i]@,
            target_user,
            message,
        )
    &&& forall|i: int|
        n_inv <= i < plans.len() ==> message_plan_ok(
            #[trigger] plans[i],
            msgs[i - n_inv].0,
            msgs[i - n_inv].1,
            own,
            control_room,
            debug,
        )
}

/// Plans the reaction to one message event.
pub fn message_plan(
    room_id: &str,
    ev: &MessageEvent,
    own_mxid: &str,
    control_room_id: &str,
    debug: bool,
) -> (p: Plan)
    ensures
        message_plan_ok(p, room_id@, *ev, own_mxid@, control_room_id@, debug),
{
    let messages = if is_mention(own_mxid, ev.sender.as_str(), ev.body.as_str(), &ev.formatted_body)
    {
        handle_mention(
            room_id,
            control_room_id,
            ev.sender.as_str(),
            ev.event_id.as_str(),
            ev.body.as_str(),
            debug,
        )
    } else {
        Vec::new()
    };
    Plan::Message { room_id: room_id.to_owned(), event_id: ev.event_id.clone(), messages }
}

/// Classifies one delta batch: an invite plan for every invitation, then a
/// message plan for every message event of every joined room.
pub fn dispatch(
    batch: &DeltaBatch,
    own_mxid: &str,
    target_user: &str,
    message: &str,
    control_room_id: &str,
    debug: bool,
) -> (plans: Vec<Plan>)
    ensures
        dispatch_ok(plans@, *batch, own_mxid@, target_user@, message@, control_room_id@, debug),
{
    let mut plans: Vec<Plan> = Vec::new();
    let n_inv = batch.invited_rooms.len();
    let mut i: usize = 0;
    while i < n_inv
        invariant
            n_inv == batch.invited_rooms@.len(),
            i <= n_inv,
            plans@.len() == i,
            forall|k: int|
                0 <= k < i ==> invite_plan_ok(
                    #[trigger] plans@[k],
                    batch.invited_rooms@[k]@,
                    target_user@,
                    message@,
                ),
        decreases n_inv - i,
    {
        let room = &batch.invited_rooms[i];
        let actions = invite_plan(room.as_str(), target_user, message);
        plans.push(Plan::Invite { room_id: room.clone(), actions });
        i += 1;
    }
    let mut r: usize = 0;
    while r < batch.joined_rooms.len()
        invariant
            n_inv == batch.invited_rooms@.len(),
            r <= batch.joined_rooms@.len(),
            plans@.len() == n_inv + all_messages(batch.joined_rooms@.take(r as int)).len(),
            forall|k: int|
                0 <= k < n_inv ==> invite_plan_ok(
                    #[trigger] plans@[k],
                    batch.invited_rooms@[k]@,
                    target_user@,
                    message@,
                ),
            forall|k: int|
                n_inv <= k < plans@.len() ==> message_plan_ok(
                    #[trigger] plans@[k],
                    all_messages(batch.joined_rooms@.take(r as int))[k - n_inv].0,
                    all_messages(batch.joined_rooms@.take(r as int))[k - n_inv].1,
                    own_mxid@,
                    control_room_id@,
                    debug,
                ),
        decreases batch.joined_rooms@.len() - r,
    {
        let room = &batch.joined_rooms[r];
        let ghost base = all_messages(batch.joined_rooms@.take(r as int));
        let mut j: usize = 0;
        while j < room.timeline.len()
            invariant
                n_inv == batch.invited_rooms@.len(),
                r < batch.joined_rooms@.len(),
                room == batch.joined_rooms@[r as int],
                base == all_messages(batch.joined_rooms@.take(r as int)),
                j <= room.timeline@.len(),
                plans@.len() == n_inv + base.len() + room_messages(
                    room.room_id@,
                    room.timeline@.take(j as int),
                ).len(),
                forall|k: int|
                    0 <= k < n_inv ==> invite_plan_ok(
                        #[trigger] plans@[k],
                        batch.invited_rooms@[k]@,
                        target_user@,
                        message@,
                    ),
                forall|k: int|
                    n_inv <= k < n_inv + base.len() ==> message_plan_ok(
                        #[trigger] plans@[k],
                        base[k - n_inv].0,
                        base[k - n_inv].1,
                        own_mxid@,
                        control_room_id@,
                        debug,
                    ),
                forall|k: int|
                    n_inv + base.len() <= k < plans@.len() ==> message_plan_ok(
                        #[trigger] plans@[k],
                        room_messages(room.room_id@, room.timeline@.take(j as int))[k - n_inv
                            - base.len()].0,
                        room_messages(room.room_id@, room.timeline@.take(j as int))[k - n_inv
                            - base.len()].1,
                        own_mxid@,
                        control_room_id@,
                        debug,
                    ),
            decreases room.timeline@.len() - j,
        {
            proof {
                assert(room.timeline@.take(j + 1).drop_last() =~= room.timeline@.take(j as int));
                assert(room.timeline@.take(j + 1).last() == room.timeline@[j as int]);
            }
            match &room.timeline[j] {
                RoomEvent::Message(ev) => {
                    let p = message_plan(
                        room.room_id.as_str(),
                        ev,
                        own_mxid,
                        control_room_id,
                        debug,
                    );
                    plans.push(p);
                },
                RoomEvent::Other => {},
            }
            j += 1;
        }
        proof {
            assert(room.timeline@.take(room.timeline@.len() as int) =~= room.timeline@);
            assert(batch.joined_rooms@.take(r + 1).drop_last() =~= batch.joined_rooms@.take(
                r as int,
            ));
            assert(batch.joined_rooms@.take(r + 1).last() == batch.joined_rooms@[r as int]);
            assert(all_messages(batch.joined_rooms@.take(r + 1)) == base + room_messages(
                room.room_id@,
                room.timeline@,
            ));
        }
        r += 1;
    }
    proof {
        assert(batch.joined_rooms@.take(batch.joined_rooms@.len() as int) =~= batch.joined_rooms@);
    }
    plans
}

/// One turn of the sync loop after a batch arrived: persist the batch's
/// cursor, then classify the batch. The cursor advance happens-before the
/// dispatch, so a crash in between replays the batch rather than losing it
/// — delivery is at-least-once by design.
pub fn process_batch(
    store: &mut KvStore,
    account: &str,
    batch: &DeltaBatch,
    own_mxid: &str,
    target_user: &str,
    message: &str,
    control_room_id: &str,
    debug: bool,
) -> (plans: Vec<Plan>)
    ensures
        final(store)@ == old(store)@.insert(cursor_key_of(account@), batch.next_batch@),
        dispatch_ok(plans@, *batch, own_mxid@, target_user@, message@, control_room_id@, debug),
{
    save_cursor(store, account, batch.next_batch.as_str());
    dispatch(batch, own_mxid, target_user, message, control_room_id, debug)
}

/// The per-account loop's state.
#[derive(Debug, Clone, Copy, PartialEq, Eq, Structural)]
pub enum SyncState {
    /// A session is being established.
    Authenticating,
    /// Batches are fetched and dispatched, indefinitely.
    Syncing,
    /// The account's loop ended: reported, not retried in this run.
    Failed,
}

/// What the outside world reports to the loop.
#[derive(Debug, Clone, Copy, PartialEq, Eq, Structural)]
pub enum SyncEvent {
    /// A session was established.
    Authenticated,
    /// Neither token nor credentials were usable.
    AuthFailed,
    /// The blocking fetch returned a batch.
    BatchReceived,
    /// The blocking fetch itself failed.
    FetchFailed,
}

/// The loop's transition function: authentication leads to syncing, which
/// self-loops on batches; an auth or fetch failure demotes the account to
/// `Failed`, which is terminal. An event foreign to the current state
/// leaves it unchanged.
pub open spec fn sync_step_spec(s: SyncState, e: SyncEvent) -> SyncState {
    match s {
        SyncState::Authenticating => match e {
            SyncEvent::Authenticated => SyncState::Syncing,
            SyncEvent::AuthFailed => SyncState::Failed,
            _ => SyncState::Authenticating,
        },
        SyncState::Syncing => match e {
            SyncEvent::BatchReceived => SyncState::Syncing,
            SyncEvent::FetchFailed => SyncState::Failed,
            _ => SyncState::Syncing,
        },
        SyncState::Failed => SyncState::Failed,
    }
}

/// Advances the per-account loop's state by one reported event.
pub fn sync_step(s: SyncState, e: SyncEvent) -> (next: SyncState)
    ensures
        next == sync_step_spec(s, e),
{
    match s {
        SyncState::Authenticating => match e {
            SyncEvent::Authenticated => SyncState::Syncing,
            SyncEvent::AuthFailed => SyncState::Failed,
            _ => SyncState::Authenticating,
        },
        SyncState::Syncing => match e {
            SyncEvent::BatchReceived => SyncState::Syncing,
            SyncEvent::FetchFailed => SyncState::Failed,
            _ => SyncState::Syncing,
        },
        SyncState::Failed => SyncState::Failed,
    }
}

/// The store after the cursors of successive batches were persisted in
/// order for the account `account`.
pub open spec fn cursors_applied(
    m: Map<Seq<char>, Seq<char>>,
    account: Seq<char>,
    cursors: Seq<Seq<char>>,
) -> Map<Seq<char>, Seq<char>>
    decreases cursors.len(),
{
    if cursors.len() == 0 {
        m
    } else {
        cursors_applied(m, account, cursors.drop_last()).insert(
            cursor_key_of(account),
            cursors.last(),
        )
    }
}

/// Law: after any run of successfully processed batches, the persisted
/// cursor for the account equals the last batch's cursor — never an
/// earlier one.
pub proof fn lemma_cursor_monotonic(
    m: Map<Seq<char>, Seq<char>>,
    account: Seq<char>,
    cursors: Seq<Seq<char>>,
)
    requires
        cursors.len() > 0,
    ensures
        cursors_applied(m, account, cursors).contains_key(cursor_key_of(account)),
        cursors_applied(m, account, cursors)[cursor_key_of(account)] == cursors.last(),
{
}

} // verus!
