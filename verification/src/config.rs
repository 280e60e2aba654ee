//! Account configuration and the authentication decision.
//!
//! Configuration is loaded at the process edge; the engine only reads the
//! resulting values. The one decision specified here is how a transport
//! session is established for an account: a pre-issued token wins over a
//! password, and an account with neither is skipped.

use vstd::prelude::*;
use vstd::string::*;

verus! {

/// One configured account: its server, identity and auth material.
#[derive(Debug, Clone, PartialEq)]
pub struct Homeserver {
    /// Address of the account's server.
    pub address: String,
    /// The account's own identity, of the form `@local:host`.
    pub mxid: String,
    /// A pre-issued long-lived token, if one was configured.
    pub access_token: Option<String>,
    /// A password to exchange for a token, if one was configured.
    pub password: Option<String>,
}

/// The whole configuration: global settings and the accounts to run.
#[derive(Debug, Clone, PartialEq)]
pub struct Config {
    /// Acknowledgement notice posted after joining an invited room.
    pub message: String,
    /// The supervising account invited into every joined room.
    pub target_user: String,
    /// The accounts, one independent sync loop each.
    pub servers: Vec<Homeserver>,
    /// When set, mentions are additionally acknowledged in place.
    pub debug: bool,
}

/// How a transport session is established for an account.
#[derive(Debug, Clone, PartialEq)]
pub enum AuthMethod {
    /// A session built locally from a pre-issued token.
    Token { user_id: String, access_token: String, device_id: String },
    /// Credentials exchanged once for a token.
    Password { user_id: String, password: String },
    /// Neither token nor password: the account is skipped.
    Missing,
}

/// The authentication decision for `server`: a configured token wins over a
/// password; with neither the account is skipped.
pub open spec fn auth_method_ok(server: Homeserver, m: AuthMethod) -> bool {
    match server.access_token {
        Some(tok) => m matches AuthMethod::Token { user_id, access_token, device_id }
            && user_id@ == server.mxid@ && access_token@ == tok@ && device_id@ == "Ruma Bot"@,
        None => match server.password {
            Some(pw) => m matches AuthMethod::Password { user_id, password } && user_id@
                == server.mxid@ && password@ == pw@,
            None => m is Missing,
        },
    }
}

/// Decides how the transport authenticates `server`.
pub fn auth_method(server: &Homeserver) -> (m: AuthMethod)
    ensures
        auth_method_ok(*server, m),
{
    match &server.access_token {
        Some(tok) => AuthMethod::Token {
            user_id: server.mxid.clone(),
            access_token: tok.clone(),
            device_id: String::from_str("Ruma Bot"),
        },
        None => match &server.password {
            Some(pw) => AuthMethod::Password {
                user_id: server.mxid.clone(),
                password: pw.clone(),
            },
            None => AuthMethod::Missing,
        },
    }
}

} // verus!
