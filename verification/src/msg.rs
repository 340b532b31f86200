//! Plain data carried by the protocol messages that concern lobbies.
use vstd::prelude::*;

verus! {

/// Default TCP port of the server.
pub const DEFAULT_PORT: u16 = 7777;

/// Protocol version; client and server must agree on it.
pub const PROTOCOL_VERSION: u32 = 1;

/// Largest accepted message body, in bytes (10 MiB).
pub const MAX_MSG_SIZE: usize = 10485760;

/// One row of the lobby list.
#[derive(Debug)]
pub struct LobbyInfo {
    pub id: u64,
    pub name: String,
    pub map_id: String,
    pub players: u8,
    pub max_players: u8,
    pub in_game: bool,
}

/// Full state of one lobby, as shown in its waiting room.
#[derive(Debug)]
pub struct LobbyState {
    pub id: u64,
    pub name: String,
    pub map_id: String,
    pub max_players: u8,
    pub players: Vec<PlayerInfo>,
    pub host_id: u64,
}

/// A player as listed in a lobby.
#[derive(Debug)]
pub struct PlayerInfo {
    pub id: u64,
    pub name: String,
    pub team: u8,
    pub ready: bool,
}

impl Clone for PlayerInfo {
    fn clone(&self) -> (r: Self)
        ensures
            r == *self,
    {
        PlayerInfo { id: self.id, name: self.name.clone(), team: self.team, ready: self.ready }
    }
}

impl Clone for LobbyInfo {
    fn clone(&self) -> (r: Self)
        ensures
            r == *self,
    {
        LobbyInfo {
            id: self.id,
            name: self.name.clone(),
            map_id: self.map_id.clone(),
            players: self.players,
            max_players: self.max_players,
            in_game: self.in_game,
        }
    }
}

impl Clone for LobbyState {
    fn clone(&self) -> (r: Self)
        ensures
            r.id == self.id,
            r.name == self.name,
            r.map_id == self.map_id,
            r.max_players == self.max_players,
            r.players@ == self.players@,
            r.host_id == self.host_id,
    {
        let players = self.players.clone();
        assert(players@ =~= self.players@);
        LobbyState {
            id: self.id,
            name: self.name.clone(),
            map_id: self.map_id.clone(),
            max_players: self.max_players,
            players,
            host_id: self.host_id,
        }
    }
}

} // verus!
