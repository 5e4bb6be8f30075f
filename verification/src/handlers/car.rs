//! Changing a player's car, and a car's skin.

use crate::dto::request::ChangeCarRequest;
use crate::dto::response::MessageType;
use crate::error::HubError;
use crate::state::InnerAppState;
use vstd::prelude::*;

verus! {

/// Asks that the cars numbered `car_id` of a room take another skin.
#[derive(Debug, Clone, Copy, PartialEq, Eq)]
pub struct ChangeCarSkinRequest {
    pub room_id: i32,
    pub car_id: i32,
    pub skin_id: i32,
}

/// Moves a player to another car and publishes the room's new snapshot.
///
/// Fails with `NotFound` when there is no such room, and with `RoomGone`
/// when the room has no channel or the channel does not accept the
/// snapshot. A failure changes no room: the move is applied only once the
/// snapshot is published, and all that a refusing channel leaves behind is
/// the record of the offer. A car number that no car of the room has is no
/// failure: the player then sits in no car.
pub fn change_car(state: &mut InnerAppState, request: &ChangeCarRequest) -> (changed: Result<
    (),
    HubError,
>)
    ensures
        match changed {
            Ok(()) => {
                &&& old(state)@.rooms.contains_key(request.room_id)
                &&& old(state)@.channels.contains_key(request.room_id)
                &&& final(state)@ == old(state)@.change_car(
                    request.room_id,
                    request.player_id,
                    request.car_id,
                )
            },
            Err(e) => e == old(state)@.change_refusal(request.room_id) && final(state)@ == old(
                state,
            )@.change_car_refused(request.room_id, request.player_id, request.car_id),
        },
        !(old(state)@.rooms.contains_key(request.room_id) && old(state)@.channels.contains_key(
            request.room_id,
        )) ==> changed is Err,
        changed is Ok ==> final(state)@.rooms[request.room_id].seated_at_most_once(
            request.player_id,
        ),
        old(state)@.paired() ==> final(state)@.paired(),
{
    let room_id = request.room_id;
    let mut room = match state.get(room_id) {
        Ok(room) => room,
        Err(e) => {
            return Err(e);
        },
    };
    room.change_car(request.player_id, request.car_id);
    match state.publish(room_id, MessageType::Sync(room.clone())) {
        Ok(()) => {},
        Err(e) => {
            return Err(e);
        },
    }
    state.replace(room_id, room);
    proof {
        assert(state@ == old(state)@.change_car(room_id, request.player_id, request.car_id));
        if old(state)@.paired() {
            assert(state@.rooms.dom() =~= state@.channels.dom());
        }
    }
    Ok(())
}

/// Gives the cars numbered `car_id` another skin and publishes the room's
/// new snapshot.
///
/// Fails with `NotFound` when there is no such room, and with `RoomGone`
/// when the room has no channel or the channel does not accept the
/// snapshot. A failure changes no room. A car number that no car of the
/// room has is no failure: the snapshot is published unchanged.
pub fn change_car_skin(state: &mut InnerAppState, request: &ChangeCarSkinRequest) -> (changed:
    Result<(), HubError>)
    ensures
        match changed {
            Ok(()) => {
                &&& old(state)@.rooms.contains_key(request.room_id)
                &&& old(state)@.channels.contains_key(request.room_id)
                &&& final(state)@ == old(state)@.change_car_skin(
                    request.room_id,
                    request.car_id,
                    request.skin_id,
                )
            },
            Err(e) => e == old(state)@.change_refusal(request.room_id) && final(state)@ == old(
                state,
            )@.change_car_skin_refused(request.room_id, request.car_id, request.skin_id),
        },
        !(old(state)@.rooms.contains_key(request.room_id) && old(state)@.channels.contains_key(
            request.room_id,
        )) ==> changed is Err,
        old(state)@.paired() ==> final(state)@.paired(),
{
    let room_id = request.room_id;
    let mut room = match state.get(room_id) {
        Ok(room) => room,
        Err(e) => {
            return Err(e);
        },
    };
    room.change_car_skin(request.car_id, request.skin_id);
    match state.publish(room_id, MessageType::Sync(room.clone())) {
        Ok(()) => {},
        Err(e) => {
            return Err(e);
        },
    }
    state.replace(room_id, room);
    proof {
        assert(state@ == old(state)@.change_car_skin(room_id, request.car_id, request.skin_id));
        if old(state)@.paired() {
            assert(state@.rooms.dom() =~= state@.channels.dom());
        }
    }
    Ok(())
}

} // verus!
