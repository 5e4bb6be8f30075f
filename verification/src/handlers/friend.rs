//! Requests on the friend lists of the profile store.

use vstd::prelude::*;

verus! {

/// Asks that two players become friends.
#[derive(Debug, Clone, Copy, PartialEq, Eq)]
pub struct AddFriendRequest {
    pub master_id: i32,
    pub friend_id: i32,
}

/// Asks that a friend be taken off a player's list.
#[derive(Debug, Clone, Copy, PartialEq, Eq)]
pub struct RemoveFriendRequest {
    pub master_id: i32,
    pub friend_id: i32,
}

/// Asks for the friends of a player.
#[derive(Debug, Clone, Copy, PartialEq, Eq)]
pub struct GetFriendsRequest {
    pub master_id: i32,
}

} // verus!
