use auto_invite_matrix_bot::config::{auth_method, AuthMethod, Homeserver};
use auto_invite_matrix_bot::control::{
    record_control_room, resolve_control_room, Resolution,
};
use auto_invite_matrix_bot::invite::{invite_outcome, invite_plan, Action, StepResult};
use auto_invite_matrix_bot::mention::{handle_mention, is_mention};
use auto_invite_matrix_bot::message::MsgKind;
use auto_invite_matrix_bot::store::{load_cursor, save_cursor, KvStore};
use auto_invite_matrix_bot::sync::{
    dispatch, generate_filter, message_plan, process_batch, sync_step, DeltaBatch,
    JoinedRoomUpdate, MessageEvent, Plan, RoomEvent, SyncEvent, SyncState,
};
use auto_invite_matrix_bot::text::{contains_str, host_part, local_part, str_eq};

const OWN: &str = "@bot:example.org";
const ALICE: &str = "@alice:example.org";
const OWNER: &str = "@owner:example.org";

fn msg_event(sender: &str, event_id: &str, body: &str, formatted: Option<&str>) -> MessageEvent {
    MessageEvent {
        sender: sender.to_string(),
        event_id: event_id.to_string(),
        body: body.to_string(),
        formatted_body: formatted.map(|s| s.to_string()),
    }
}

#[test]
fn invite_handler_idempotent_repeat() {
    // Both steps report "already held": success on the first call and on a
    // repetition of the same call.
    let first = invite_outcome(StepResult::AlreadyDone, StepResult::AlreadyDone, StepResult::Done);
    let second = invite_outcome(StepResult::AlreadyDone, StepResult::AlreadyDone, StepResult::Done);
    assert!(first);
    assert!(second);
}

#[test]
fn invite_handler_failure_detected() {
    assert!(!invite_outcome(StepResult::Failed, StepResult::Done, StepResult::Done));
    assert!(!invite_outcome(StepResult::Done, StepResult::Failed, StepResult::Done));
    assert!(!invite_outcome(StepResult::Done, StepResult::Done, StepResult::Failed));
    assert!(invite_outcome(StepResult::Done, StepResult::Done, StepResult::Done));
}

#[test]
fn cursor_follows_latest_batch() {
    let mut store = KvStore::new();
    let b1 = DeltaBatch {
        next_batch: "s_100".to_string(),
        invited_rooms: vec![],
        joined_rooms: vec![],
    };
    let b2 = DeltaBatch {
        next_batch: "s_200".to_string(),
        invited_rooms: vec![],
        joined_rooms: vec![],
    };
    process_batch(&mut store, OWN, &b1, OWN, OWNER, "hi", "!c:example.org", false);
    assert_eq!(load_cursor(&store, OWN).unwrap(), "s_100");
    process_batch(&mut store, OWN, &b2, OWN, OWNER, "hi", "!c:example.org", false);
    assert_eq!(load_cursor(&store, OWN).unwrap(), "s_200");
}

#[test]
fn cursor_absent_on_first_run() {
    let store = KvStore::new();
    assert!(load_cursor(&store, OWN).is_none());
}

#[test]
fn cursors_keyed_by_account() {
    // Two accounts on the same homeserver keep separate records.
    let mut store = KvStore::new();
    save_cursor(&mut store, "@bot:example.org", "a");
    save_cursor(&mut store, "@other:example.org", "b");
    assert_eq!(load_cursor(&store, "@bot:example.org").unwrap(), "a");
    assert_eq!(load_cursor(&store, "@other:example.org").unwrap(), "b");
}

#[test]
fn mention_formatted_full_identity_any_case() {
    let formatted = Some("hello <b>@Bot:Example.ORG</b>!".to_string());
    assert!(is_mention(OWN, ALICE, "hello", &formatted));
}

#[test]
fn no_mention_formatted_without_identity() {
    let formatted = Some("hello <b>somebody else</b>".to_string());
    assert!(!is_mention(OWN, ALICE, "hello bot", &formatted));
}

#[test]
fn mention_plain_local_part_only() {
    // The plain body carries only the local part "bot", no domain suffix.
    assert!(is_mention(OWN, ALICE, "hey bot, you there?", &None));
}

#[test]
fn no_mention_plain_without_local_part() {
    assert!(!is_mention(OWN, ALICE, "hey there, you around?", &None));
}

#[test]
fn formatted_body_needs_full_identity() {
    // The rule is asymmetric: with a formatted body present, the local part
    // alone does not count as a mention.
    let formatted = Some("hey bot".to_string());
    assert!(!is_mention(OWN, ALICE, "hey bot", &formatted));
}

#[test]
fn store_latest_binding_wins() {
    let mut store = KvStore::new();
    save_cursor(&mut store, "h", "first");
    save_cursor(&mut store, "h", "second");
    assert_eq!(load_cursor(&store, "h").unwrap(), "second");
}

#[test]
fn self_message_never_a_mention() {
    let formatted = Some("pinging @bot:example.org".to_string());
    assert!(!is_mention(OWN, OWN, "pinging @bot:example.org", &formatted));
    assert!(!is_mention(OWN, OWN, "bot bot bot", &None));
}

#[test]
fn control_channel_created_exactly_once() {
    let mut store = KvStore::new();
    let mut creations = 0;

    let first = resolve_control_room(&store, OWN, OWNER);
    let id = match first {
        Resolution::Existing(_) => panic!("no channel was recorded yet"),
        Resolution::MustCreate(req) => {
            creations += 1;
            assert_eq!(req.name, "AutoInviteBot Control Room example.org");
            assert_eq!(req.invite, vec![OWNER.to_string()]);
            assert!(req.trusted_private);
            "!ctrl:example.org".to_string()
        }
    };
    record_control_room(&mut store, OWN, &id);

    let second = resolve_control_room(&store, OWN, OWNER);
    match second {
        Resolution::Existing(found) => assert_eq!(found, id),
        Resolution::MustCreate(_) => {
            creations += 1;
        }
    }
    assert_eq!(creations, 1);
}

#[test]
fn invite_scenario_join_invite_announce() {
    // An invite to R1 plans: join R1, invite the supervisor, post the notice.
    let batch = DeltaBatch {
        next_batch: "s_1".to_string(),
        invited_rooms: vec!["R1".to_string()],
        joined_rooms: vec![],
    };
    let plans = dispatch(&batch, OWN, OWNER, "<message>", "!ctrl:example.org", false);
    assert_eq!(plans.len(), 1);
    match &plans[0] {
        Plan::Invite { room_id, actions } => {
            assert_eq!(room_id, "R1");
            assert_eq!(actions.len(), 3);
            match &actions[0] {
                Action::Join { room_id } => assert_eq!(room_id, "R1"),
                other => panic!("expected a join, got {:?}", other),
            }
            match &actions[1] {
                Action::InviteUser { room_id, user_id } => {
                    assert_eq!(room_id, "R1");
                    assert_eq!(user_id, OWNER);
                }
                other => panic!("expected an invite, got {:?}", other),
            }
            match &actions[2] {
                Action::Post { message } => {
                    assert_eq!(message.room_id, "R1");
                    assert_eq!(message.body, "<message>");
                    assert_eq!(message.kind, MsgKind::Notice);
                    assert!(message.in_reply_to.is_none());
                }
                other => panic!("expected a post, got {:?}", other),
            }
        }
        other => panic!("expected an invite plan, got {:?}", other),
    }
}

#[test]
fn mention_scenario_relays_into_control_channel() {
    let ev = msg_event(ALICE, "$evt1", "hey bot, you there?", None);
    let plan = message_plan("R2", &ev, OWN, "!ctrl:example.org", false);
    match plan {
        Plan::Message { room_id, event_id, messages } => {
            assert_eq!(room_id, "R2");
            assert_eq!(event_id, "$evt1");
            assert_eq!(messages.len(), 1);
            let relay = &messages[0];
            assert_eq!(relay.room_id, "!ctrl:example.org");
            assert_eq!(relay.kind, MsgKind::Text);
            assert_eq!(
                relay.body,
                "> <@alice:example.org> hey bot, you there?\n\n Mention in R2 by @alice:example.org"
            );
            assert!(relay.in_reply_to.is_none());
        }
        other => panic!("expected a message plan, got {:?}", other),
    }
}

#[test]
fn mention_debug_mode_acknowledges_in_place() {
    let msgs = handle_mention("R2", "!ctrl:example.org", ALICE, "$evt1", "hi bot", true);
    assert_eq!(msgs.len(), 2);
    assert_eq!(msgs[0].room_id, "R2");
    assert_eq!(msgs[0].kind, MsgKind::Notice);
    assert_eq!(msgs[0].in_reply_to.as_deref(), Some("$evt1"));
    assert_eq!(
        msgs[0].body,
        "> <@alice:example.org> hi bot\n\n[DEBUG] Mentioned main account about this mention"
    );
    assert_eq!(msgs[1].room_id, "!ctrl:example.org");
    assert_eq!(msgs[1].kind, MsgKind::Text);
    assert_eq!(
        msgs[1].body,
        "> <@alice:example.org> hi bot\n\n Mention in R2 by @alice:example.org"
    );
}

#[test]
fn dispatch_classifies_mixed_batch() {
    let batch = DeltaBatch {
        next_batch: "s_5".to_string(),
        invited_rooms: vec!["R1".to_string()],
        joined_rooms: vec![
            JoinedRoomUpdate {
                room_id: "R2".to_string(),
                timeline: vec![
                    RoomEvent::Other,
                    RoomEvent::Message(msg_event(ALICE, "$a", "hey bot", None)),
                    RoomEvent::Message(msg_event(ALICE, "$b", "nothing here", None)),
                ],
            },
            JoinedRoomUpdate {
                room_id: "R3".to_string(),
                timeline: vec![RoomEvent::Message(msg_event(ALICE, "$c", "bot again", None))],
            },
        ],
    };
    let mut store = KvStore::new();
    let plans =
        process_batch(&mut store, OWN, &batch, OWN, OWNER, "hi", "!ctrl:example.org", false);
    assert_eq!(load_cursor(&store, OWN).unwrap(), "s_5");
    assert_eq!(plans.len(), 4);
    assert!(matches!(&plans[0], Plan::Invite { room_id, .. } if room_id == "R1"));
    match &plans[1] {
        Plan::Message { room_id, event_id, messages } => {
            assert_eq!(room_id, "R2");
            assert_eq!(event_id, "$a");
            assert_eq!(messages.len(), 1);
        }
        other => panic!("expected a message plan, got {:?}", other),
    }
    match &plans[2] {
        Plan::Message { event_id, messages, .. } => {
            assert_eq!(event_id, "$b");
            assert!(messages.is_empty());
        }
        other => panic!("expected a message plan, got {:?}", other),
    }
    match &plans[3] {
        Plan::Message { room_id, event_id, messages } => {
            assert_eq!(room_id, "R3");
            assert_eq!(event_id, "$c");
            assert_eq!(messages.len(), 1);
        }
        other => panic!("expected a message plan, got {:?}", other),
    }
}

#[test]
fn filter_restricts_to_room_messages() {
    let f = generate_filter();
    assert_eq!(f.timeline_types, vec!["m.room.message".to_string()]);
}

#[test]
fn auth_token_wins_over_password() {
    let server = Homeserver {
        address: "https://example.org".to_string(),
        mxid: OWN.to_string(),
        access_token: Some("tok".to_string()),
        password: Some("pw".to_string()),
    };
    match auth_method(&server) {
        AuthMethod::Token { user_id, access_token, device_id } => {
            assert_eq!(user_id, OWN);
            assert_eq!(access_token, "tok");
            assert_eq!(device_id, "Ruma Bot");
        }
        other => panic!("expected a token session, got {:?}", other),
    }
}

#[test]
fn auth_password_when_no_token() {
    let server = Homeserver {
        address: "https://example.org".to_string(),
        mxid: OWN.to_string(),
        access_token: None,
        password: Some("pw".to_string()),
    };
    match auth_method(&server) {
        AuthMethod::Password { user_id, password } => {
            assert_eq!(user_id, OWN);
            assert_eq!(password, "pw");
        }
        other => panic!("expected a password login, got {:?}", other),
    }
}

#[test]
fn auth_missing_when_neither() {
    let server = Homeserver {
        address: "https://example.org".to_string(),
        mxid: OWN.to_string(),
        access_token: None,
        password: None,
    };
    assert_eq!(auth_method(&server), AuthMethod::Missing);
}

#[test]
fn sync_state_transitions() {
    assert_eq!(sync_step(SyncState::Authenticating, SyncEvent::Authenticated), SyncState::Syncing);
    assert_eq!(sync_step(SyncState::Authenticating, SyncEvent::AuthFailed), SyncState::Failed);
    assert_eq!(sync_step(SyncState::Syncing, SyncEvent::BatchReceived), SyncState::Syncing);
    assert_eq!(sync_step(SyncState::Syncing, SyncEvent::FetchFailed), SyncState::Failed);
    assert_eq!(sync_step(SyncState::Failed, SyncEvent::BatchReceived), SyncState::Failed);
}

#[test]
fn identity_parts() {
    assert_eq!(local_part("@bot:example.org"), "bot");
    assert_eq!(local_part("bot:example.org"), "bot");
    assert_eq!(local_part("@bot"), "bot");
    assert_eq!(host_part("@bot:example.org"), "example.org");
    assert_eq!(host_part("nodomain"), "");
}

#[test]
fn text_primitives() {
    assert!(str_eq("abc", "abc"));
    assert!(!str_eq("abc", "abd"));
    assert!(!str_eq("abc", "ab"));
    assert!(contains_str("hello world", "lo wo"));
    assert!(contains_str("hello", ""));
    assert!(!contains_str("hello", "hello world"));
    assert!(contains_str("héllo wörld", "wörld"));
}

#[test]
fn transaction_ids_are_thirty_alphanumerics() {
    let plan = invite_plan("R1", OWNER, "hi");
    match &plan[2] {
        Action::Post { message } => {
            assert_eq!(message.txn_id.chars().count(), 30);
            assert!(message.txn_id.chars().all(|c| c.is_ascii_alphanumeric()));
        }
        other => panic!("expected a post, got {:?}", other),
    }
}
