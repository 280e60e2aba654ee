//! The invite handler.
//!
//! When an account is invited to a room the bot joins it, invites the
//! supervising account, and posts an acknowledgement notice. The handler
//! plans these three transport steps; the transport performs them in order,
//! skipping the rest when the join fails, and reports each step back.

use crate::message::{is_notice_message, notice_message, OutgoingMessage};
use vstd::prelude::*;

verus! {

/// One transport step the engine asks for.
#[derive(Debug, Clone, PartialEq)]
pub enum Action {
    /// Join a room the account was invited to.
    Join { room_id: String },
    /// Invite a user into a room.
    InviteUser { room_id: String, user_id: String },
    /// Post a message into a room.
    Post { message: OutgoingMessage },
}

/// `acts` is the reaction to an invitation into `room`: join it, invite
/// `target_user`, post the acknowledgement notice `message`.
pub open spec fn is_invite_plan(
    acts: Seq<Action>,
    room: Seq<char>,
    target_user: Seq<char>,
    message: Seq<char>,
) -> bool {
    &&& acts.len() == 3
    &&& (acts[0] matches Action::Join { room_id } && room_id@ == room)
    &&& (acts[1] matches Action::InviteUser { room_id, user_id } && room_id@ == room && user_id@
        == target_user)
    &&& (acts[2] matches Action::Post { message: m } && is_notice_message(m, room, message))
}

/// Plans the reaction to an invitation into `room_id`.
pub fn invite_plan(room_id: &str, target_user: &str, message: &str) -> (acts: Vec<Action>)
    ensures
        is_invite_plan(acts@, room_id@, target_user@, message@),
{
    let mut acts: Vec<Action> = Vec::new();
    acts.push(Action::Join { room_id: room_id.to_owned() });
    acts.push(
        Action::InviteUser { room_id: room_id.to_owned(), user_id: target_user.to_owned() },
    );
    acts.push(Action::Post { message: notice_message(room_id, message.to_owned()) });
    acts
}

/// The transport's report of one handler step.
#[derive(Debug, Clone, Copy, PartialEq, Eq, Structural)]
pub enum StepResult {
    /// The request succeeded.
    Done,
    /// The request was a no-op because its effect already held: the room
    /// was already joined, or the user already invited.
    AlreadyDone,
    /// The request failed.
    Failed,
}

/// A step succeeded, counting an idempotent no-op as success.
pub open spec fn step_ok(r: StepResult) -> bool {
    r is Done || r is AlreadyDone
}

/// The whole invitation was handled without error.
pub open spec fn invite_outcome_spec(
    join: StepResult,
    invite: StepResult,
    post: StepResult,
) -> bool {
    step_ok(join) && step_ok(invite) && step_ok(post)
}

/// Classifies the three step reports of one handled invitation. An
/// already-joined room or an already-invited user is success, never an
/// error.
pub fn invite_outcome(join: StepResult, invite: StepResult, post: StepResult) -> (ok: bool)
    ensures
        ok == invite_outcome_spec(join, invite, post),
{
    let join_ok = match join {
        StepResult::Failed => false,
        _ => true,
    };
    let invite_ok = match invite {
        StepResult::Failed => false,
        _ => true,
    };
    let post_ok = match post {
        StepResult::Failed => false,
        _ => true,
    };
    join_ok && invite_ok && post_ok
}

/// Law: handling an invitation when the account is already a member and the
/// target already invited raises no error — and since the outcome is a
/// function of the step reports alone, a repeated call for the same room
/// succeeds again.
pub proof fn lemma_invite_idempotent(join: StepResult, invite: StepResult, post: StepResult)
    requires
        step_ok(join),
        step_ok(invite),
        step_ok(post),
    ensures
        invite_outcome_spec(join, invite, post),
{
}

} // verus!
