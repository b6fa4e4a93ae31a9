//! What travels between the UI and the background worker: requests one way,
//! their results and the sync events the other way.

use vstd::prelude::*;

verus! {

/// A joined room, as the UI lists it.
#[derive(Debug, Clone, PartialEq, Eq)]
pub struct RoomEntry {
    pub id: String,
    pub name: String,
}

/// Why the remote service refused or failed an operation.
#[derive(Debug, Clone, PartialEq, Eq)]
pub enum ProtocolError {
    AuthFailed,
    SendFailed,
    Transport(String),
}

/// A user-initiated operation, sent from the UI to the worker.
#[derive(Debug, Clone, PartialEq, Eq)]
pub enum UserRequest {
    /// Log in with a user name and a password.
    Login(String, String),
    /// Send a text to a room: the room's id, then the body.
    SendMessage(String, String),
    /// Stop the worker. It has no result.
    Quit,
}

/// The one outcome of a request, sent back from the worker to the UI.
#[derive(Debug, PartialEq, Eq)]
pub enum RequestResult {
    /// The rooms joined at login, or why the login failed.
    Login(Result<Vec<RoomEntry>, ProtocolError>),
    /// The acknowledgement of a sent message, or why sending failed.
    SendMessage(Result<(), ProtocolError>),
}

/// A notification from the sync loop, tied to no request.
#[derive(Debug, Clone, PartialEq, Eq)]
pub enum StateResult {
    /// A message arrived: the sender, the body, then the room's id.
    Message(String, String, String),
    SyncStateChanged,
    SyncFailed(ProtocolError),
}

impl UserRequest {
    /// Every request but `Quit` is owed exactly one result.
    pub open spec fn expects_result(self) -> bool {
        !(self is Quit)
    }
}

} // verus!
