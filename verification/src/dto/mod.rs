//! The values that cross the boundary of the server: requests and events.

pub mod request;
pub mod response;

pub use request::{ChangeCarRequest, JoinRoomRequest, QuitRoomRequest};
pub use response::{MessageResponse, MessageResponseView, MessageType, MessageTypeView};
