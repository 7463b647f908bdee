//! Lifecycle state of the API server.

use vstd::prelude::*;

verus! {

#[derive(Debug, Clone, Copy, PartialEq, Eq, Structural)]
pub enum ServerState {
    Stopped,
    Starting,
    Running,
    Error,
}

impl Default for ServerState {
    fn default() -> (r: Self)
        ensures
            r == ServerState::Stopped,
    {
        ServerState::Stopped
    }
}

} // verus!
