//! The status response that answers a status request.
use crate::packets::status::{Players, StatusData, Version};
use crate::session::Session;
use vstd::prelude::*;

verus! {

/// Whether `d` is the server-list entry of session `a`: the configured version name and
/// player counts, the configured protocol version or, when that is 0, the client's own,
/// the configured description and icon, and no secure-chat enforcement.
pub open spec fn status_data_for(a: &Session, d: StatusData) -> bool {
    &&& d.version.name@ == a.config.server.config.version@
    &&& d.version.protocol == if a.config.server.config.protocol == 0 {
        a.proto_ver
    } else {
        a.config.server.config.protocol
    }
    &&& d.players.max == a.config.server.status.players_max
    &&& d.players.online == a.config.server.status.players_online
    &&& d.description@ == a.config.server.status.description@
    &&& match a.config.image {
        Some(i) => d.favicon matches Some(f) && f@ == i@,
        None => d.favicon is None,
    }
    &&& !d.enforces_secure_chat
}

impl Session {
    /// Status response data
    pub fn send_status(&self) -> (r: StatusData)
        ensures
            status_data_for(self, r),
    {
        let proto_ver = if self.config.server.config.protocol == 0 {
            self.proto_ver
        } else {
            self.config.server.config.protocol
        };
        let favicon = match &self.config.image {
            Some(i) => Some(i.clone()),
            None => None,
        };
        StatusData {
            version: Version { name: self.config.server.config.version.clone(), protocol: proto_ver },
            players: Players {
                max: self.config.server.status.players_max,
                online: self.config.server.status.players_online,
            },
            description: self.config.server.status.description.clone(),
            favicon,
            enforces_secure_chat: false,
        }
    }
}

} // verus!
