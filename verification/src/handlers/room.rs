//! Creating a room, and leaving one by request.

use crate::dto::request::QuitRoomRequest;
use crate::dto::response::MessageType;
use crate::error::HubError;
use crate::state::InnerAppState;
use crate::types::Room;
use vstd::prelude::*;

verus! {

/// Asks for a new room, hosted by `player_id`. Only the ambient settings go
/// into the room; the host joins it like everybody else, over a connection.
#[derive(Debug, Clone, PartialEq, Eq)]
pub struct CreateRoomRequest {
    pub player_id: i32,
    pub player_name: String,
    pub car_id: i32,
    pub weather_id: i32,
    pub background_id: i32,
}

/// Creates the room that `request` asks for, with its channel, and returns
/// the room's id, which is the id of the host. Fails with `AlreadyExists`,
/// and changes nothing, exactly when a room has that id already.
pub fn create_room(state: &mut InnerAppState, request: &CreateRoomRequest) -> (created: Result<
    i32,
    HubError,
>)
    ensures
        match created {
            Ok(room_id) => room_id == request.player_id && !old(state)@.rooms.contains_key(room_id)
                && final(state)@ == old(state)@.create_room(
                room_id,
                request.weather_id,
                request.background_id,
            ),
            Err(e) => e == HubError::AlreadyExists && old(state)@.rooms.contains_key(
                request.player_id,
            ) && final(state)@ == old(state)@,
        },
        old(state)@.paired() ==> final(state)@.paired(),
{
    let room_id = request.player_id;
    match state.create(Room::new(room_id, request.weather_id, request.background_id)) {
        Ok(()) => Ok(room_id),
        Err(e) => Err(e),
    }
}

/// Takes a player out of a room at the player's request, and publishes the
/// notice on the room's channel.
///
/// Fails with `NotFound` when there is no such room, with `RoomGone` when
/// the room has no channel or the channel does not accept the notice, and
/// with `PlayerAbsent` when the room has a channel and the player is not in
/// the room. A failure changes no room and no liveness entry; all that a
/// refusing channel leaves behind is the record of the offer. On success
/// the first entry of the player has left the room, the closure of the
/// player's connection is expected, and `Quit` is published.
pub fn quit_room(state: &mut InnerAppState, request: &QuitRoomRequest) -> (quit: Result<
    (),
    HubError,
>)
    ensures
        match quit {
            Ok(()) => {
                &&& old(state)@.rooms.contains_key(request.room_id)
                &&& old(state)@.channels.contains_key(request.room_id)
                &&& old(state)@.rooms[request.room_id].has_player(request.player_id)
                &&& final(state)@ == old(state)@.quit_room(request.room_id, request.player_id)
            },
            Err(e) => {
                &&& e == old(state)@.quit_refusal(request.room_id, request.player_id)
                &&& final(state)@ == old(state)@.quit_refused(request.room_id, request.player_id)
            },
        },
        old(state)@.quit_refusal(request.room_id, request.player_id) != HubError::RoomGone
            ==> quit is Err,
        old(state)@.paired() ==> final(state)@.paired(),
{
    let room_id = request.room_id;
    let player_id = request.player_id;
    let mut room = match state.get(room_id) {
        Ok(room) => room,
        Err(e) => {
            return Err(e);
        },
    };
    if !state.has_channel(room_id) {
        return Err(HubError::RoomGone);
    }
    if room.quit(player_id).is_none() {
        return Err(HubError::PlayerAbsent);
    }
    match state.publish(room_id, MessageType::Quit(player_id, room_id)) {
        Ok(()) => {},
        Err(e) => {
            return Err(e);
        },
    }
    state.replace(room_id, room);
    state.expect_closure(player_id);
    proof {
        assert(state@ == old(state)@.quit_room(room_id, player_id));
        if old(state)@.paired() {
            crate::room::lemma_quit_keeps_room_id(old(state)@.rooms[room_id], player_id);
            assert(state@.rooms.dom() =~= state@.channels.dom());
        }
    }
    Ok(())
}

} // verus!
