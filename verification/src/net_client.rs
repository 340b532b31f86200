//! State of the client's connection to a server.
use vstd::prelude::*;

verus! {

/// Where the connection to the server stands.
#[derive(Clone, PartialEq, Eq, Debug)]
pub enum ConnState {
    Connecting,
    Connected,
    /// Closed; holds the reason.
    Disconnected(String),
}

} // verus!
