//! What the profile store keeps of players and their friends.

pub mod friend;
pub mod player;

pub use friend::Friend;
pub use player::SimplePlayer;
