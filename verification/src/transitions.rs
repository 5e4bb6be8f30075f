//! The steps of the hub, as functions on [`HubView`]. The handlers promise
//! them in their contracts, and the laws are proved of them.

use crate::dto::response::MessageTypeView;
use crate::error::HubError;
use crate::state::{Broadcast, HubView};
use crate::types::{PlayerView, RoomView};
use vstd::prelude::*;

verus! {

/// The events of `events` that `taken` marks, in their order. The two lists
/// go together item by item.
pub open spec fn accepted(events: Seq<MessageTypeView>, taken: Seq<bool>) -> Seq<MessageTypeView>
    decreases events.len(),
{
    if events.len() == 0 || taken.len() != events.len() {
        Seq::empty()
    } else {
        let earlier = accepted(events.drop_last(), taken.drop_last());
        if taken.last() {
            earlier.push(events.last())
        } else {
            earlier
        }
    }
}

/// The test that holds of the players with another id than `player_id`.
pub open spec fn not_player(player_id: i32) -> spec_fn(PlayerView) -> bool {
    |p: PlayerView| p.player_id != player_id
}

/// The notice that a player quits a room.
pub open spec fn quit_notice(room_id: i32) -> spec_fn(PlayerView) -> MessageTypeView {
    |p: PlayerView| MessageTypeView::Quit(p.player_id, room_id)
}

/// The notices of a host's departure: one for each entry of the player
/// list but the host's own, in the order of the list.
pub open spec fn departures(players: Seq<PlayerView>, room_id: i32, host: i32) -> Seq<
    MessageTypeView,
> {
    players.filter(not_player(host)).map_values(quit_notice(room_id))
}

impl HubView {
    /// This hub after `events` were handed to the channel of `room_id`,
    /// one after another, and the channel took those that `taken` marks.
    pub open spec fn with_offers(
        self,
        room_id: i32,
        events: Seq<MessageTypeView>,
        taken: Seq<bool>,
    ) -> HubView {
        HubView {
            offered: self.offered + events.map_values(
                |event: MessageTypeView| Broadcast { room_id, event },
            ),
            published: self.published + accepted(events, taken).map_values(
                |event: MessageTypeView| Broadcast { room_id, event },
            ),
            ..self
        }
    }

    /// Whether `after` is this hub after `event` was handed to the channel
    /// of `room_id`: with a channel the event is offered, and published if
    /// the channel took it; without one nothing has changed.
    pub open spec fn offered(self, after: HubView, room_id: i32, event: MessageTypeView) -> bool {
        if self.channels.contains_key(room_id) {
            after == self.with_offer(room_id, event, true) || after == self.with_offer(
                room_id,
                event,
                false,
            )
        } else {
            after == self
        }
    }

    /// Whether `after` is this hub after `events` were handed to the
    /// channel of `room_id`, one after another: with a channel every one of
    /// them is offered, in their order, and those that the channel took are
    /// published; without one nothing has changed.
    pub open spec fn offered_all(self, after: HubView, room_id: i32, events: Seq<MessageTypeView>) -> bool {
        if self.channels.contains_key(room_id) {
            exists|taken: Seq<bool>|
                taken.len() == events.len() && after == #[trigger] self.with_offers(
                    room_id,
                    events,
                    taken,
                )
        } else {
            after == self
        }
    }

    /// The hub after a room was created: an empty room under `room_id`, and
    /// a channel for it.
    pub open spec fn create_room(self, room_id: i32, weather_id: i32, background_id: i32) -> HubView {
        self.with_room(room_id, RoomView::empty(room_id, weather_id, background_id)).with_channel(
            room_id,
        )
    }

    /// The hub after `player` has joined the room `room_id` with a car of
    /// skin `skin_id`. Nothing is published by the join itself.
    pub open spec fn join(self, room_id: i32, player: PlayerView, skin_id: i32) -> HubView {
        self.with_room(room_id, self.rooms[room_id].join(player, skin_id))
    }

    /// The hub after the room `room_id` has published its own snapshot.
    pub open spec fn sync(self, room_id: i32) -> HubView {
        self.with_published(room_id, MessageTypeView::Sync(self.rooms[room_id]))
    }

    /// The hub after a player of the room `room_id` has changed car, and
    /// the room has published its new snapshot.
    pub open spec fn change_car(self, room_id: i32, player_id: i32, car_id: i32) -> HubView {
        self.with_room(room_id, self.rooms[room_id].change_car(player_id, car_id)).sync(room_id)
    }

    /// The hub after cars of the room `room_id` have changed skin, and the
    /// room has published its new snapshot.
    pub open spec fn change_car_skin(self, room_id: i32, car_id: i32, skin_id: i32) -> HubView {
        self.with_room(room_id, self.rooms[room_id].change_car_skin(car_id, skin_id)).sync(room_id)
    }

    /// The hub after `player_id` has quit the room `room_id` by request:
    /// the player is out of the room, the closure of the player's connection
    /// is expected, and the room has published the notice.
    pub open spec fn quit_room(self, room_id: i32, player_id: i32) -> HubView {
        self.with_room(room_id, self.rooms[room_id].quit(player_id)).with_expected(
            player_id,
        ).with_published(room_id, MessageTypeView::Quit(player_id, room_id))
    }

    /// The error with which the hub refuses to change the room `room_id`
    /// and publish its snapshot: `NotFound` without the room, else
    /// `RoomGone`, which is then up to the room's channel.
    pub open spec fn change_refusal(self, room_id: i32) -> HubError {
        if !self.rooms.contains_key(room_id) {
            HubError::NotFound
        } else {
            HubError::RoomGone
        }
    }

    /// The error with which the hub refuses that `player_id` quit the room
    /// `room_id` by request: `NotFound` without the room, `RoomGone`
    /// without its channel, `PlayerAbsent` without the player; else
    /// `RoomGone`, which is then up to the room's channel.
    pub open spec fn quit_refusal(self, room_id: i32, player_id: i32) -> HubError {
        if !self.rooms.contains_key(room_id) {
            HubError::NotFound
        } else if !self.channels.contains_key(room_id) {
            HubError::RoomGone
        } else if !self.rooms[room_id].has_player(player_id) {
            HubError::PlayerAbsent
        } else {
            HubError::RoomGone
        }
    }

    /// The other occupants of the room `room_id`: the ids of its players
    /// but `player_id`.
    pub open spec fn others_in(self, room_id: i32, player_id: i32) -> Set<i32> {
        Set::new(
            |id: i32|
                self.rooms.contains_key(room_id) && self.rooms[room_id].has_player(id) && id
                    != player_id,
        )
    }

    /// This hub with the closure of every occupant of the room `room_id`
    /// but `player_id` expected.
    pub open spec fn with_others_expected(self, room_id: i32, player_id: i32) -> HubView {
        HubView {
            expected_closures: self.expected_closures.union(self.others_in(room_id, player_id)),
            ..self
        }
    }

    /// The hub after the connection of the host of the room `room_id` has
    /// ended: the closure of every other occupant is expected, the room and
    /// its channel are gone, and so are the host's liveness entries.
    pub open spec fn host_teardown(self, room_id: i32) -> HubView {
        self.with_others_expected(room_id, room_id).without_room(room_id).without_player(room_id)
    }

    /// The hub after the connection of a player who is not the host has
    /// ended: the player is out of the room, where the room is still
    /// there; the notice is offered to the room's channel, where there is
    /// one, and published if `announced`; and the player's liveness entries
    /// are gone.
    pub open spec fn guest_departure(self, room_id: i32, player_id: i32, announced: bool) -> HubView {
        let left = if self.rooms.contains_key(room_id) {
            self.with_room(room_id, self.rooms[room_id].quit(player_id))
        } else {
            self
        };
        let told = if self.channels.contains_key(room_id) {
            left.with_offer(room_id, MessageTypeView::Quit(player_id, room_id), announced)
        } else {
            left
        };
        told.without_player(player_id)
    }

    /// The hub after a change of car was refused: nothing has changed but
    /// for the offer of the new snapshot, where the channel did not take it.
    pub open spec fn change_car_refused(self, room_id: i32, player_id: i32, car_id: i32) -> HubView {
        if self.rooms.contains_key(room_id) {
            self.with_refused(
                room_id,
                MessageTypeView::Sync(self.rooms[room_id].change_car(player_id, car_id)),
            )
        } else {
            self
        }
    }

    /// The hub after a change of skin was refused: nothing has changed but
    /// for the offer of the new snapshot, where the channel did not take it.
    pub open spec fn change_car_skin_refused(self, room_id: i32, car_id: i32, skin_id: i32) -> HubView {
        if self.rooms.contains_key(room_id) {
            self.with_refused(
                room_id,
                MessageTypeView::Sync(self.rooms[room_id].change_car_skin(car_id, skin_id)),
            )
        } else {
            self
        }
    }

    /// The hub after the publishing of a room's snapshot was refused:
    /// nothing has changed but for the offer, where the channel did not
    /// take it.
    pub open spec fn sync_refused(self, room_id: i32) -> HubView {
        if self.rooms.contains_key(room_id) {
            self.with_refused(room_id, MessageTypeView::Sync(self.rooms[room_id]))
        } else {
            self
        }
    }

    /// The hub after a quit by request was refused: nothing has changed but
    /// for the offer of the notice, where the room, its channel and the
    /// player were there and the channel did not take it.
    pub open spec fn quit_refused(self, room_id: i32, player_id: i32) -> HubView {
        if self.rooms.contains_key(room_id) && self.rooms[room_id].has_player(player_id) {
            self.with_refused(room_id, MessageTypeView::Quit(player_id, room_id))
        } else {
            self
        }
    }
}

} // verus!
