//! A room server core for a real-time multiplayer game.
//!
//! Players join a shared room, see one synchronised snapshot of the room and
//! its cars, and exchange chat and emoji messages. This crate holds the room
//! state, the registries that own it, and the decisions of a connection's
//! three duties, each with a contract that Verus proves.
//!
//! - [`types`] and [`room`]: a room's snapshot and what can happen to it.
//! - [`registry`] and [`state`]: the hub, which owns the rooms, their
//!   channels and the liveness entries; [`transitions`] has its steps as
//!   functions on the hub's model.
//! - [`handlers`]: what each request does to the hub, and what each duty of
//!   a connection answers to a frame, an event or a tick.
//! - [`session`]: a connection's life, from its entry to its reconciliation.
//! - [`wire`] and [`decimal`]: the JSON frames and the numbers in them.
//! - [`laws`]: what holds of all of this, proved.
//!
//! The transport, the tasks and the clock are the caller's: every function
//! here is one step, from the hub and plain values to the hub and plain
//! values.

pub mod config;
pub mod decimal;
pub mod dto;
pub mod error;
pub mod handlers;
pub mod laws;
pub mod models;
pub mod registry;
pub mod room;
pub mod session;
pub mod state;
pub mod transitions;
pub mod types;
pub mod wire;

pub use config::{BindConfig, Config, KeyConfig};
pub use dto::{
    ChangeCarRequest, JoinRoomRequest, MessageResponse, MessageResponseView, MessageType,
    MessageTypeView, QuitRoomRequest,
};
pub use error::{HubError, StoreError};
pub use handlers::{
    change_car, change_car_skin, create_room, handle_broadcast_to_ws, handle_websocket,
    handle_ws_to_broadcast, heartbeat_task, index, quit_room, websocket_handler, AddFriendRequest,
    AddPlayerRequest, BadParameter, ChangeCarSkinRequest, CloseReason, ConnectParams,
    ConnectRequest, CreateRoomRequest, ForwardStep, GetFriendsRequest, HeartbeatStep, Inbound,
    Outbound, ParamFault, ParamName, ReaderStep, Received, RemoveFriendRequest,
};
pub use models::{Friend, SimplePlayer};
pub use session::{Duty, Session, SessionState};
pub use state::{Broadcast, HubView, InnerAppState};
pub use types::{Car, CarView, Player, PlayerView, Room, RoomView};
