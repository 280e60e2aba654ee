//! The control-channel resolver.
//!
//! Each account relays its mention notifications into one private control
//! channel. The resolver trusts the persisted mapping: when a record
//! exists it is returned unchanged, otherwise it asks the transport to
//! create a trusted private two-party channel inviting the supervising
//! account, and the new id is recorded before it is used.

use crate::store::{control_room_key, control_room_key_of, KvStore};
use crate::text::{host_part, host_part_of};
use vstd::prelude::*;
use vstd::string::*;

verus! {

/// A request to create the private control channel for one account.
#[derive(Debug, Clone, PartialEq)]
pub struct CreateChannelRequest {
    /// Users invited at creation: exactly the supervising account.
    pub invite: Vec<String>,
    /// Channel name shown to members.
    pub name: String,
    /// Created with the trusted private two-party preset.
    pub trusted_private: bool,
}

/// The name given to the control channel of the account `account`: it shows
/// the server host of the identity.
pub open spec fn control_room_name_of(account: Seq<char>) -> Seq<char> {
    "AutoInviteBot Control Room "@ + host_part_of(account)
}

/// `r` asks for the control channel of the account `account`: private,
/// trusted, inviting exactly `target_user`.
pub open spec fn is_create_request(
    r: CreateChannelRequest,
    account: Seq<char>,
    target_user: Seq<char>,
) -> bool {
    &&& r.invite@.len() == 1
    &&& r.invite@[0]@ == target_user
    &&& r.name@ == control_room_name_of(account)
    &&& r.trusted_private
}

/// What one resolver call decides.
#[derive(Debug, Clone, PartialEq)]
pub enum Resolution {
    /// The persisted mapping already names the control channel.
    Existing(String),
    /// No record yet: the transport must create this channel, and the new
    /// id is then persisted with [`record_control_room`].
    MustCreate(CreateChannelRequest),
}

/// The channel recorded for the account `account` in store state `m`, when
/// there is one.
pub open spec fn recorded_channel(m: Map<Seq<char>, Seq<char>>, account: Seq<char>) -> Option<
    Seq<char>,
> {
    if m.contains_key(control_room_key_of(account)) {
        Some(m[control_room_key_of(account)])
    } else {
        None
    }
}

/// Resolver decision for the account `account`: return the recorded channel
/// unchanged, or ask for a fresh private channel inviting `target_user`.
pub fn resolve_control_room(store: &KvStore, account: &str, target_user: &str) -> (r: Resolution)
    ensures
        match recorded_channel(store@, account@) {
            Some(id) => r matches Resolution::Existing(e) && e@ == id,
            None => r matches Resolution::MustCreate(req) && is_create_request(
                req,
                account@,
                target_user@,
            ),
        },
{
    let k = control_room_key(account);
    match store.get(k.as_str()) {
        Some(id) => Resolution::Existing(id.clone()),
        None => {
            let mut name = String::from_str("AutoInviteBot Control Room ");
            name.append(host_part(account));
            let mut invite: Vec<String> = Vec::new();
            invite.push(target_user.to_owned());
            Resolution::MustCreate(CreateChannelRequest { invite, name, trusted_private: true })
        },
    }
}

/// Persists the mapping from the account `account` to its control channel.
pub fn record_control_room(store: &mut KvStore, account: &str, room_id: &str)
    ensures
        final(store)@ == old(store)@.insert(control_room_key_of(account@), room_id@),
{
    let k = control_room_key(account);
    store.put(k.as_str(), room_id.to_owned());
}

/// Law: once a channel id is recorded for an account and persistence
/// succeeded, every later resolver call finds that very id and never asks
/// for another creation — the channel is created exactly once.
pub proof fn lemma_control_room_exactly_once(
    m: Map<Seq<char>, Seq<char>>,
    account: Seq<char>,
    id: Seq<char>,
)
    ensures
        recorded_channel(m.insert(control_room_key_of(account), id), account) == Some(id),
{
}

} // verus!
