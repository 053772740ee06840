//! The stored records that the ceremonies work on.
use vstd::prelude::*;

use crate::id::Ulid;
use crate::time::Timestamp;

verus! {

/// A user.
#[derive(Debug)]
pub struct User {
    pub id: Ulid,
    pub username: String,
}

/// A browser session of a signed-in user.
#[derive(Clone, Copy, Debug)]
pub struct BrowserSession {
    pub id: Ulid,
}

/// A passkey of a user.
#[derive(Debug)]
pub struct UserPasskey {
    pub id: Ulid,
    pub user_id: Ulid,
    /// The identifier of the credential, a JSON string in base64url.
    pub credential_id: String,
    /// What the user calls the passkey.
    pub name: String,
    /// How the authenticator can be reached, a JSON array.
    pub transports: String,
    /// The part of the credential's state that never changes.
    pub static_state: Vec<u8>,
    /// The part of the credential's state that each use may change.
    pub dynamic_state: Vec<u8>,
    /// What else the authenticator said when the passkey was registered.
    pub metadata: Vec<u8>,
    pub last_used_at: Option<Timestamp>,
    pub created_at: Timestamp,
}

/// A passkey that is yet to be stored.
#[derive(Debug)]
pub struct NewPasskey {
    pub user_id: Ulid,
    pub name: String,
    pub credential_id: String,
    pub transports: String,
    pub static_state: Vec<u8>,
    pub dynamic_state: Vec<u8>,
    pub metadata: Vec<u8>,
}

/// A ceremony that is yet to be stored.
#[derive(Debug)]
pub struct NewChallenge {
    /// The browser session that the ceremony is started in, if any.
    pub user_session_id: Option<Ulid>,
    /// The state of the ceremony.
    pub state: Vec<u8>,
}

/// A ceremony that waits for the browser's response.
#[derive(Debug)]
pub struct UserPasskeyChallenge {
    pub id: Ulid,
    /// The browser session that the ceremony was started in, if any.
    pub user_session_id: Option<Ulid>,
    /// The state of the ceremony.
    pub state: Vec<u8>,
    pub created_at: Timestamp,
    /// When the ceremony was completed, if it was.
    pub completed_at: Option<Timestamp>,
}

} // verus!
