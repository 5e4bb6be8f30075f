//! A player as the profile store knows them.

use crate::error::StoreError;
use vstd::prelude::*;

verus! {

/// Id and display name of a player.
#[derive(Debug, PartialEq, Eq)]
pub struct SimplePlayer {
    pub player_id: i32,
    pub player_name: String,
}

impl SimplePlayer {
    /// The profile with the given id and name.
    pub fn new(player_id: i32, player_name: String) -> (profile: SimplePlayer)
        ensures
            profile.player_id == player_id,
            profile.player_name == player_name,
    {
        SimplePlayer { player_id, player_name }
    }

    /// Judges the insertion of a profile by the number of rows that the
    /// store reports as written: it failed exactly when that number is 0.
    pub fn add_player(rows_affected: u64) -> (added: Result<(), StoreError>)
        ensures
            added == if rows_affected == 0 {
                Err::<(), StoreError>(StoreError::NothingWritten)
            } else {
                Ok::<(), StoreError>(())
            },
    {
        if rows_affected == 0 {
            Err(StoreError::NothingWritten)
        } else {
            Ok(())
        }
    }
}

impl Clone for SimplePlayer {
    fn clone(&self) -> (copy: SimplePlayer)
        ensures
            copy == *self,
    {
        SimplePlayer { player_id: self.player_id, player_name: self.player_name.clone() }
    }
}

} // verus!
