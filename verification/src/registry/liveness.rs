//! The liveness tables: whose closure is expected, and when each player
//! last answered a probe.

use crate::registry::Kept;
use dashmap::DashMap;
use vstd::prelude::*;

verus! {

/// The players whose closure a table of quit intents expects. An entry
/// carries nothing: only its presence counts.
pub uninterp spec fn quit_intents(table: DashMap<i32, ()>) -> Map<i32, ()>;

/// The time of the last answer of each player that a table of answers knows.
pub uninterp spec fn pong_times(table: DashMap<i32, u64>) -> Map<i32, u64>;

impl Kept for () {
    type Shown = ();

    open spec fn shown(self) -> () {
        ()
    }

    open spec fn held(table: DashMap<i32, ()>) -> Map<i32, ()> {
        quit_intents(table)
    }
}

impl Kept for u64 {
    type Shown = u64;

    open spec fn shown(self) -> u64 {
        self
    }

    open spec fn held(table: DashMap<i32, u64>) -> Map<i32, u64> {
        pong_times(table)
    }
}

/// `DashMap::contains_key`: whether the player's closure is expected.
#[verifier::external_body]
pub(crate) fn intents_contains(table: &DashMap<i32, ()>, player_id: i32) -> (expected: bool)
    ensures
        expected == quit_intents(*table).contains_key(player_id),
{
    table.contains_key(&player_id)
}

/// `DashMap::entry` and `Entry::or_insert`, called by the table's only
/// holder: the player's last answer where the table knows one, and nothing
/// changes; else `time`, which the table then holds for the player.
#[verifier::external_body]
pub(crate) fn pongs_get_or_insert(table: &mut DashMap<i32, u64>, player_id: i32, time: u64) -> (last:
    u64)
    ensures
        pong_times(*old(table)).contains_key(player_id) ==> last == pong_times(*old(table))[player_id]
            && pong_times(*final(table)) == pong_times(*old(table)),
        !pong_times(*old(table)).contains_key(player_id) ==> last == time && pong_times(
            *final(table),
        ) == pong_times(*old(table)).insert(player_id, time),
{
    *table.entry(player_id).or_insert(time)
}

} // verus!
