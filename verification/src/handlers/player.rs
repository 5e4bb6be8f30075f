//! Requests on the player profiles of the profile store.

use vstd::prelude::*;

verus! {

/// Asks that a player's profile be stored.
#[derive(Debug, Clone, PartialEq, Eq)]
pub struct AddPlayerRequest {
    pub player_id: i32,
    pub player_name: String,
}

} // verus!
