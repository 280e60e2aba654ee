//! Core engine of an auto-invite bot for a federated messaging network.
//!
//! For each configured account the bot watches for room invitations, joins
//! them, invites a supervising account and announces the event; it also
//! watches joined-room traffic for messages that mention the account's own
//! identity and relays those to a private control channel.
//!
//! This crate holds the verified core: the incremental synchronization and
//! event-dispatch engine. It models the resumable cursor, converts delta
//! batches into domain events, and plans the per-event side effects. The
//! network transport, configuration loading and logging are thin unverified
//! collaborators that drive this engine.

pub mod config;
pub mod control;
pub mod invite;
pub mod mention;
pub mod message;
pub mod store;
pub mod sync;
pub mod text;
