//! The room table: a concurrent keyed map from room id to room snapshot.

use crate::registry::Kept;
use crate::types::{Room, RoomView};
use dashmap::DashMap;
use vstd::prelude::*;

verus! {

/// The rooms that a room table holds, each by its view.
pub uninterp spec fn room_entries(table: DashMap<i32, Room>) -> Map<i32, RoomView>;

impl Kept for Room {
    type Shown = RoomView;

    open spec fn shown(self) -> RoomView {
        self@
    }

    open spec fn held(table: DashMap<i32, Room>) -> Map<i32, RoomView> {
        room_entries(table)
    }
}

/// `DashMap::get`, with the entry cloned out: the room under the key, or
/// `None` where the table has no such key.
#[verifier::external_body]
pub(crate) fn rooms_get(table: &DashMap<i32, Room>, room_id: i32) -> (found: Option<Room>)
    ensures
        match found {
            Some(room) => room_entries(*table).contains_key(room_id) && room@ == room_entries(
                *table,
            )[room_id],
            None => !room_entries(*table).contains_key(room_id),
        },
{
    table.get(&room_id).map(|entry| entry.value().clone())
}

} // verus!
