//! Laws of the hub: what holds of the registries after each of its steps.

use crate::dto::response::MessageTypeView;
use crate::laws::rooms::law_quit_removes_one_entry;
use crate::state::{HubView, CHANNEL_CAPACITY};
use crate::types::PlayerView;
use vstd::prelude::*;

verus! {

/// Quitting a room by request, with the notice published, removes exactly
/// the one player from the room and leaves the room in the registry, with
/// its channel; no other room changes, and the notice is the last event
/// published.
pub proof fn law_quit_room_keeps_room(hub: HubView, room_id: i32, player_id: i32)
    requires
        hub.rooms.contains_key(room_id),
        hub.rooms[room_id].has_player(player_id),
    ensures
        hub.quit_room(room_id, player_id).rooms.contains_key(room_id),
        hub.quit_room(room_id, player_id).rooms.dom() == hub.rooms.dom(),
        hub.quit_room(room_id, player_id).channels == hub.channels,
        hub.quit_room(room_id, player_id).rooms[room_id] == hub.rooms[room_id].quit(player_id),
        hub.quit_room(room_id, player_id).rooms[room_id].players == hub.rooms[room_id].players.remove(
            hub.rooms[room_id].first_place(player_id),
        ),
        forall|other: i32|
            other != room_id && hub.rooms.contains_key(other) ==> hub.quit_room(
                room_id,
                player_id,
            ).rooms[other] == hub.rooms[other],
        hub.quit_room(room_id, player_id).published.last().event == MessageTypeView::Quit(
            player_id,
            room_id,
        ),
        hub.quit_room(room_id, player_id).expected_closures.contains(player_id),
{
    law_quit_removes_one_entry(hub.rooms[room_id], player_id);
    assert(hub.quit_room(room_id, player_id).rooms.dom() =~= hub.rooms.dom());
}

/// The same holds when the connection of a player who is not the host
/// ends: as long as the room is there, the player's first entry leaves it
/// and the room stays in the registry, whether the notice was published or
/// not; and the player's liveness entries are gone.
pub proof fn law_guest_departure_keeps_room(
    hub: HubView,
    room_id: i32,
    player_id: i32,
    announced: bool,
)
    requires
        hub.rooms.contains_key(room_id),
    ensures
        hub.guest_departure(room_id, player_id, announced).rooms.contains_key(room_id),
        hub.guest_departure(room_id, player_id, announced).rooms.dom() == hub.rooms.dom(),
        hub.guest_departure(room_id, player_id, announced).channels == hub.channels,
        hub.guest_departure(room_id, player_id, announced).rooms[room_id] == hub.rooms[room_id].quit(
            player_id,
        ),
        forall|other: i32|
            other != room_id && hub.rooms.contains_key(other) ==> hub.guest_departure(
                room_id,
                player_id,
                announced,
            ).rooms[other] == hub.rooms[other],
        !hub.guest_departure(room_id, player_id, announced).expected_closures.contains(player_id),
        !hub.guest_departure(room_id, player_id, announced).last_pong.contains_key(player_id),
        hub.paired() ==> hub.guest_departure(room_id, player_id, announced).paired(),
{
    let after = hub.guest_departure(room_id, player_id, announced);
    assert(after.rooms.dom() =~= hub.rooms.dom());
}

/// When the connection of a room's host has ended, the room and its channel
/// are both gone from the registry, every other occupant's closure is
/// expected, the host's liveness entries are gone, and no other room or
/// channel has changed.
pub proof fn law_host_teardown_removes_room(hub: HubView, room_id: i32)
    ensures
        !hub.host_teardown(room_id).rooms.contains_key(room_id),
        !hub.host_teardown(room_id).channels.contains_key(room_id),
        forall|other: i32|
            other != room_id ==> (hub.host_teardown(room_id).rooms.contains_key(other)
                <==> hub.rooms.contains_key(other)) && (hub.host_teardown(room_id).channels.contains_key(
                other,
            ) <==> hub.channels.contains_key(other)),
        forall|other: i32|
            other != room_id && hub.rooms.contains_key(other) ==> hub.host_teardown(
                room_id,
            ).rooms[other] == hub.rooms[other],
        forall|id: i32|
            id != room_id && hub.rooms.contains_key(room_id) && hub.rooms[room_id].has_player(id)
                ==> hub.host_teardown(room_id).expected_closures.contains(id),
        !hub.host_teardown(room_id).expected_closures.contains(room_id),
        !hub.host_teardown(room_id).last_pong.contains_key(room_id),
        hub.host_teardown(room_id).published == hub.published,
        hub.paired() ==> hub.host_teardown(room_id).paired(),
{
    let after = hub.host_teardown(room_id);
    assert forall|id: i32|
        id != room_id && hub.rooms.contains_key(room_id) && hub.rooms[room_id].has_player(
            id,
        ) implies after.expected_closures.contains(id) by {
        assert(hub.others_in(room_id, room_id).contains(id));
    }
    if hub.paired() {
        assert(after.rooms.dom() =~= after.channels.dom());
    }
}

/// One atomic step of the hub, as the handlers and the duties take them.
/// An offer that the channel refuses is a step too: it is all that is left
/// of a request that failed on its channel.
pub enum Step {
    CreateRoom { room_id: i32, weather_id: i32, background_id: i32 },
    Join { room_id: i32, player: PlayerView, skin_id: i32 },
    Sync { room_id: i32 },
    ChangeCar { room_id: i32, player_id: i32, car_id: i32 },
    ChangeCarSkin { room_id: i32, car_id: i32, skin_id: i32 },
    QuitRoom { room_id: i32, player_id: i32 },
    Offer { room_id: i32, event: MessageTypeView, taken: bool },
    ExpectClosure { player_id: i32 },
    ExpectOthers { room_id: i32, player_id: i32 },
    Pong { player_id: i32, time: u64 },
    HostTeardown { room_id: i32 },
    GuestDeparture { room_id: i32, player_id: i32, announced: bool },
}

impl HubView {
    /// The hub after one step. A step that the hub refuses, for want of the
    /// room, its channel or the player, leaves the hub as it is.
    pub open spec fn step(self, step: Step) -> HubView {
        match step {
            Step::CreateRoom { room_id, weather_id, background_id } => if self.rooms.contains_key(
                room_id,
            ) {
                self
            } else {
                self.create_room(room_id, weather_id, background_id)
            },
            Step::Join { room_id, player, skin_id } => if self.rooms.contains_key(room_id) {
                self.join(room_id, player, skin_id)
            } else {
                self
            },
            Step::Sync { room_id } => if self.rooms.contains_key(room_id) && self.channels.contains_key(
                room_id,
            ) {
                self.sync(room_id)
            } else {
                self
            },
            Step::ChangeCar { room_id, player_id, car_id } => if self.rooms.contains_key(room_id)
                && self.channels.contains_key(room_id) {
                self.change_car(room_id, player_id, car_id)
            } else {
                self
            },
            Step::ChangeCarSkin { room_id, car_id, skin_id } => if self.rooms.contains_key(room_id)
                && self.channels.contains_key(room_id) {
                self.change_car_skin(room_id, car_id, skin_id)
            } else {
                self
            },
            Step::QuitRoom { room_id, player_id } => if self.rooms.contains_key(room_id)
                && self.channels.contains_key(room_id) && self.rooms[room_id].has_player(player_id) {
                self.quit_room(room_id, player_id)
            } else {
                self
            },
            Step::Offer { room_id, event, taken } => if self.channels.contains_key(room_id) {
                self.with_offer(room_id, event, taken)
            } else {
                self
            },
            Step::ExpectClosure { player_id } => self.with_expected(player_id),
            Step::ExpectOthers { room_id, player_id } => self.with_others_expected(
                room_id,
                player_id,
            ),
            Step::Pong { player_id, time } => self.with_pong(player_id, time),
            Step::HostTeardown { room_id } => self.host_teardown(room_id),
            Step::GuestDeparture { room_id, player_id, announced } => self.guest_departure(
                room_id,
                player_id,
                announced,
            ),
        }
    }

    /// The hub after a sequence of steps, one after another.
    pub open spec fn run(self, steps: Seq<Step>) -> HubView
        decreases steps.len(),
    {
        if steps.len() == 0 {
            self
        } else {
            self.run(steps.drop_last()).step(steps.last())
        }
    }
}

/// Whether every channel of the hub was made with `CHANNEL_CAPACITY`.
pub open spec fn channels_bounded(hub: HubView) -> bool {
    forall|room_id: i32|
        hub.channels.contains_key(room_id) ==> #[trigger] hub.channels[room_id] == CHANNEL_CAPACITY
}

/// No step breaks the pairing of rooms and channels, and none brings in a
/// channel of another capacity.
pub proof fn law_step_keeps_pairing(hub: HubView, step: Step)
    requires
        hub.paired(),
    ensures
        hub.step(step).paired(),
        channels_bounded(hub) ==> channels_bounded(hub.step(step)),
{
    match step {
        Step::CreateRoom { room_id, weather_id, background_id } => {
            assert(hub.create_room(room_id, weather_id, background_id).rooms.dom()
                =~= hub.create_room(room_id, weather_id, background_id).channels.dom());
        },
        Step::Join { room_id, player, skin_id } => {
            assert(hub.step(step).rooms.dom() =~= hub.rooms.dom());
        },
        Step::Sync { room_id } => {},
        Step::ChangeCar { room_id, player_id, car_id } => {
            assert(hub.step(step).rooms.dom() =~= hub.rooms.dom());
        },
        Step::ChangeCarSkin { room_id, car_id, skin_id } => {
            assert(hub.step(step).rooms.dom() =~= hub.rooms.dom());
        },
        Step::QuitRoom { room_id, player_id } => {
            assert(hub.step(step).rooms.dom() =~= hub.rooms.dom());
        },
        Step::Offer { room_id, event, taken } => {},
        Step::ExpectClosure { player_id } => {},
        Step::ExpectOthers { room_id, player_id } => {},
        Step::Pong { player_id, time } => {},
        Step::HostTeardown { room_id } => {
            assert(hub.host_teardown(room_id).rooms.dom() =~= hub.host_teardown(room_id).channels.dom());
        },
        Step::GuestDeparture { room_id, player_id, announced } => {
            assert(hub.step(step).rooms.dom() =~= hub.rooms.dom());
        },
    }
}

/// In every hub that a sequence of steps can reach from the empty hub, a
/// room has a channel and a channel has a room, and each room is filed
/// under its own id: a room without its channel, or a channel without its
/// room, is never there to be seen. Every channel there was made with
/// `CHANNEL_CAPACITY`.
pub proof fn law_reachable_hub_is_paired(steps: Seq<Step>)
    ensures
        HubView::empty().run(steps).paired(),
        channels_bounded(HubView::empty().run(steps)),
    decreases steps.len(),
{
    if steps.len() == 0 {
        assert(HubView::empty().rooms.dom() =~= HubView::empty().channels.dom());
    } else {
        law_reachable_hub_is_paired(steps.drop_last());
        law_step_keeps_pairing(HubView::empty().run(steps.drop_last()), steps.last());
    }
}

} // verus!
