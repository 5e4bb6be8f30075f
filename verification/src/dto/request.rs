//! Requests that name a room and a player.

use vstd::prelude::*;

verus! {

/// Asks that a player be let into a room.
#[derive(Debug, Clone, Copy, PartialEq, Eq)]
pub struct JoinRoomRequest {
    pub room_id: i32,
    pub player_id: i32,
}

/// Asks that a player be taken out of a room.
#[derive(Debug, Clone, Copy, PartialEq, Eq)]
pub struct QuitRoomRequest {
    pub room_id: i32,
    pub player_id: i32,
}

/// Asks that a player be moved to another car of a room.
#[derive(Debug, Clone, Copy, PartialEq, Eq)]
pub struct ChangeCarRequest {
    pub room_id: i32,
    pub player_id: i32,
    pub car_id: i32,
}

} // verus!
