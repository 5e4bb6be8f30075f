//! The friends of one player.

use crate::error::StoreError;
use crate::models::player::SimplePlayer;
use vstd::prelude::*;

verus! {

/// A player and the profiles of that player's friends.
#[derive(Debug, Clone, PartialEq, Eq)]
pub struct Friend {
    pub master_id: i32,
    pub friend_ids: Vec<SimplePlayer>,
}

impl Friend {
    /// The friend list of `master_id`, with nobody on it yet.
    pub fn new(master_id: i32) -> (list: Friend)
        ensures
            list.master_id == master_id,
            list.friend_ids@.len() == 0,
    {
        Friend { master_id, friend_ids: Vec::new() }
    }

    /// Judges the making of a friendship, which the store writes in both
    /// directions, by the numbers of rows that it reports as written for
    /// each: it failed exactly when both numbers are 0.
    pub fn add_friend(rows_there: u64, rows_back: u64) -> (added: Result<(), StoreError>)
        ensures
            added == if rows_there == 0 && rows_back == 0 {
                Err::<(), StoreError>(StoreError::NothingWritten)
            } else {
                Ok::<(), StoreError>(())
            },
    {
        if rows_there == 0 && rows_back == 0 {
            Err(StoreError::NothingWritten)
        } else {
            Ok(())
        }
    }

    /// Judges the removal of a friend by the number of rows that the store
    /// reports as deleted: it failed exactly when that number is 0.
    pub fn remove_friend(rows_affected: u64) -> (removed: Result<(), StoreError>)
        ensures
            removed == if rows_affected == 0 {
                Err::<(), StoreError>(StoreError::NothingWritten)
            } else {
                Ok::<(), StoreError>(())
            },
    {
        if rows_affected == 0 {
            Err(StoreError::NothingWritten)
        } else {
            Ok(())
        }
    }

    /// The friend list of `master_id` with the profiles that the store
    /// returned for it, in their order.
    pub fn get_friends(master_id: i32, friend_ids: Vec<SimplePlayer>) -> (list: Friend)
        ensures
            list.master_id == master_id,
            list.friend_ids == friend_ids,
    {
        Friend { master_id, friend_ids }
    }
}

} // verus!
