//! What the server does on each request and on each event of a connection.

pub mod car;
pub mod friend;
pub mod player;
pub mod room;
pub mod websocket;

pub use car::{change_car, change_car_skin, ChangeCarSkinRequest};
pub use friend::{AddFriendRequest, GetFriendsRequest, RemoveFriendRequest};
pub use player::AddPlayerRequest;
pub use room::{create_room, quit_room, CreateRoomRequest};
pub use websocket::{
    handle_broadcast_to_ws, handle_websocket, handle_ws_to_broadcast, heartbeat_task,
    websocket_handler, BadParameter, CloseReason, ConnectParams, ConnectRequest, ForwardStep,
    HeartbeatStep, Inbound, Outbound, ParamFault, ParamName, ReaderStep, Received,
};

use vstd::prelude::*;

verus! {

/// The greeting of the server's root.
pub fn index() -> (greeting: &'static str)
    ensures
        greeting@ == "Hello, world!"@,
{
    "Hello, world!"
}

} // verus!
