//! How far a session has come.

use vstd::prelude::*;

verus! {

/// The state of a session. It only ever moves forward: from `Connecting`
/// to `Connected` to `Authenticated`, which holds what is known from then
/// on (the subscriptions).
#[derive(Clone, Copy, Debug, Eq, PartialEq)]
pub enum ClientState<S> {
    /// The transport is open and nothing has been received.
    Connecting,
    /// The server has acknowledged the connection.
    Connected,
    /// The server has accepted the credentials.
    Authenticated(S),
}

impl<S> ClientState<S> {
    /// How far this state is along the handshake.
    pub open spec fn rank(self) -> nat {
        match self {
            ClientState::Connecting => 0,
            ClientState::Connected => 1,
            ClientState::Authenticated(_) => 2,
        }
    }

    /// Whether the handshake is complete.
    pub fn is_authenticated(&self) -> (done: bool)
        ensures
            done == (*self is Authenticated),
    {
        match self {
            ClientState::Authenticated(_) => true,
            _ => false,
        }
    }
}

} // verus!
