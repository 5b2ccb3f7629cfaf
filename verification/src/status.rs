//! The state of the game server, as the zone reports it.

use vstd::prelude::*;

verus! {

/// Where the game server is in its life.
#[derive(Debug, Clone, Copy, PartialEq, Eq, Structural)]
pub enum ServerStatus {
    OFFLINE,
    STARTING,
    STOPPING,
    RUNNING,
}

impl ServerStatus {
    /// The name under which the status is shown.
    pub open spec fn name(self) -> Seq<char> {
        match self {
            ServerStatus::OFFLINE => "OFFLINE"@,
            ServerStatus::STARTING => "STARTING"@,
            ServerStatus::STOPPING => "STOPPING"@,
            ServerStatus::RUNNING => "RUNNING"@,
        }
    }

    /// Writes the name of the status.
    pub fn text(&self) -> (r: String)
        ensures
            r@ == self.name(),
    {
        match self {
            ServerStatus::OFFLINE => "OFFLINE".to_owned(),
            ServerStatus::STARTING => "STARTING".to_owned(),
            ServerStatus::STOPPING => "STOPPING".to_owned(),
            ServerStatus::RUNNING => "RUNNING".to_owned(),
        }
    }
}

} // verus!
