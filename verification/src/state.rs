//! The hub: the one context object that owns the registries. It is built
//! once and handed to everything that serves a connection or a request.
//!
//! Every method takes the hub by reference, and the changing ones by unique
//! reference, so that each is one atomic step on the hub's state: whoever
//! shares the hub between tasks gives each step the hub to itself. The
//! contracts are stated over [`HubView`], the hub as plain values. No method
//! asks anything of its caller.
//!
//! What a channel does with an event is the channel's business: it may lose
//! it for a subscriber that fell behind, and it refuses it when nobody
//! listens. The hub records every event that it hands to a channel, in
//! [`HubView::offered`], and which of them the channel accepted, in
//! [`HubView::published`], so that a contract can say what was offered
//! whatever the channel did, and what was published.

use crate::dto::response::{MessageType, MessageTypeView};
use crate::error::HubError;
use crate::registry::channels::{channel_open, channels_sender, open_channels};
use crate::registry::liveness::{intents_contains, pong_times, pongs_get_or_insert, quit_intents};
use crate::registry::rooms::{room_entries, rooms_get};
use crate::registry::{table_insert, table_new, table_remove};
use crate::types::{Room, RoomView};
use dashmap::DashMap;
use tokio::sync::broadcast::error::SendError;
use tokio::sync::broadcast::{Receiver, Sender};
use vstd::prelude::*;

verus! {

/// The capacity that a room's channel is made with: how many events it
/// holds, at the least, for a subscriber that fell behind.
pub const CHANNEL_CAPACITY: usize = 100;

/// One event that a room's channel has accepted.
pub struct Broadcast {
    pub room_id: i32,
    pub event: MessageTypeView,
}

/// The hub as plain values.
#[verifier::ext_equal]
pub struct HubView {
    /// The snapshot of each room.
    pub rooms: Map<i32, RoomView>,
    /// The rooms that have a channel, each with the capacity that its
    /// channel was made with.
    pub channels: Map<i32, usize>,
    /// The players whose closure is expected, and no failure.
    pub expected_closures: Set<i32>,
    /// The time of each player's last answer to a probe.
    pub last_pong: Map<i32, u64>,
    /// Every event that was handed to a channel since the hub was built,
    /// accepted or not, in the order of the handing over.
    pub offered: Seq<Broadcast>,
    /// Those of them that the channel accepted, in the same order.
    pub published: Seq<Broadcast>,
}

impl HubView {
    /// The hub as it is built: nothing in it.
    pub open spec fn empty() -> HubView {
        HubView {
            rooms: Map::empty(),
            channels: Map::empty(),
            expected_closures: Set::empty(),
            last_pong: Map::empty(),
            offered: Seq::empty(),
            published: Seq::empty(),
        }
    }

    /// Whether rooms and channels go together: a room has a channel, a
    /// channel has a room, and each room is filed under its own id.
    pub open spec fn paired(self) -> bool {
        &&& self.rooms.dom() == self.channels.dom()
        &&& forall|id: i32| self.rooms.contains_key(id) ==> (#[trigger] self.rooms[id]).room_id == id
    }

    /// This hub with `room` filed under `room_id`.
    pub open spec fn with_room(self, room_id: i32, room: RoomView) -> HubView {
        HubView { rooms: self.rooms.insert(room_id, room), ..self }
    }

    /// This hub with a channel for `room_id`: the one that it has, or else
    /// a new one of `CHANNEL_CAPACITY` events.
    pub open spec fn with_channel(self, room_id: i32) -> HubView {
        if self.channels.contains_key(room_id) {
            self
        } else {
            HubView { channels: self.channels.insert(room_id, CHANNEL_CAPACITY), ..self }
        }
    }

    /// This hub without the room `room_id` and without its channel.
    pub open spec fn without_room(self, room_id: i32) -> HubView {
        HubView {
            rooms: self.rooms.remove(room_id),
            channels: self.channels.remove(room_id),
            ..self
        }
    }

    /// This hub after `event` was handed to the channel of `room_id`, which
    /// took it or not: the event is offered, and published if `taken`.
    pub open spec fn with_offer(self, room_id: i32, event: MessageTypeView, taken: bool) -> HubView {
        HubView {
            offered: self.offered.push(Broadcast { room_id, event }),
            published: if taken {
                self.published.push(Broadcast { room_id, event })
            } else {
                self.published
            },
            ..self
        }
    }

    /// This hub after the channel of `room_id` has accepted `event`.
    pub open spec fn with_published(self, room_id: i32, event: MessageTypeView) -> HubView {
        self.with_offer(room_id, event, true)
    }

    /// This hub after `event` was handed to the channel of `room_id`, if
    /// the room has one, and the channel did not take it.
    pub open spec fn with_refused(self, room_id: i32, event: MessageTypeView) -> HubView {
        if self.channels.contains_key(room_id) {
            self.with_offer(room_id, event, false)
        } else {
            self
        }
    }

    /// This hub with the closure of `player_id` expected.
    pub open spec fn with_expected(self, player_id: i32) -> HubView {
        HubView { expected_closures: self.expected_closures.insert(player_id), ..self }
    }

    /// This hub with `time` as the last answer of `player_id`.
    pub open spec fn with_pong(self, player_id: i32, time: u64) -> HubView {
        HubView { last_pong: self.last_pong.insert(player_id, time), ..self }
    }

    /// This hub without any liveness entry of `player_id`.
    pub open spec fn without_player(self, player_id: i32) -> HubView {
        HubView {
            expected_closures: self.expected_closures.remove(player_id),
            last_pong: self.last_pong.remove(player_id),
            ..self
        }
    }
}

/// The hub: rooms, their channels, and the two liveness registries.
pub struct InnerAppState {
    /// Both ends of each room's channel. The receiving end is never read:
    /// it keeps the channel open while the room exists.
    room_broadcast_couple: DashMap<i32, (Sender<MessageType>, Receiver<MessageType>)>,
    /// The snapshot of each room.
    room_info: DashMap<i32, Room>,
    /// The players whose closure is expected.
    normal_quit_room: DashMap<i32, ()>,
    /// The time of each player's last answer to a probe.
    last_pong: DashMap<i32, u64>,
    /// What was handed to the channels so far.
    offered: Ghost<Seq<Broadcast>>,
    /// What the channels have accepted of it.
    published: Ghost<Seq<Broadcast>>,
}

impl View for InnerAppState {
    type V = HubView;

    closed spec fn view(&self) -> HubView {
        HubView {
            rooms: room_entries(self.room_info),
            channels: open_channels(self.room_broadcast_couple),
            expected_closures: quit_intents(self.normal_quit_room).dom(),
            last_pong: pong_times(self.last_pong),
            offered: self.offered@,
            published: self.published@,
        }
    }
}

/// What `publish` returns for each outcome of handing an event to a channel:
/// success when the channel took the event, `RoomGone` when it did not.
pub fn publish_outcome(sent: Result<usize, SendError<MessageType>>) -> (published: Result<
    (),
    HubError,
>)
    ensures
        published == if sent is Ok {
            Ok::<(), HubError>(())
        } else {
            Err::<(), HubError>(HubError::RoomGone)
        },
{
    match sent {
        Ok(_) => Ok(()),
        Err(_) => Err(HubError::RoomGone),
    }
}

impl InnerAppState {
    /// A hub with no room, no channel and no liveness entry.
    pub fn new() -> (hub: InnerAppState)
        ensures
            hub@ == HubView::empty(),
    {
        let hub = InnerAppState {
            room_broadcast_couple: table_new(),
            room_info: table_new(),
            normal_quit_room: table_new(),
            last_pong: table_new(),
            offered: Ghost(Seq::empty()),
            published: Ghost(Seq::empty()),
        };
        proof {
            assert(hub@.rooms =~= Map::<i32, RoomView>::empty());
            assert(hub@.channels =~= Map::<i32, usize>::empty());
            assert(hub@.last_pong =~= Map::<i32, u64>::empty());
        }
        hub
    }

    /// The snapshot of the room `room_id`. Fails with `NotFound` exactly
    /// when the hub has no such room.
    pub fn get(&self, room_id: i32) -> (found: Result<Room, HubError>)
        ensures
            match found {
                Ok(room) => self@.rooms.contains_key(room_id) && room@ == self@.rooms[room_id],
                Err(e) => !self@.rooms.contains_key(room_id) && e == HubError::NotFound,
            },
    {
        match rooms_get(&self.room_info, room_id) {
            Some(room) => Ok(room),
            None => Err(HubError::NotFound),
        }
    }

    /// Whether the hub has a room `room_id`.
    pub fn contains(&self, room_id: i32) -> (present: bool)
        ensures
            present == self@.rooms.contains_key(room_id),
    {
        rooms_get(&self.room_info, room_id).is_some()
    }

    /// Whether the room `room_id` has a channel.
    pub fn has_channel(&self, room_id: i32) -> (present: bool)
        ensures
            present == self@.channels.contains_key(room_id),
    {
        channels_sender(&self.room_broadcast_couple, room_id).is_some()
    }

    /// Files `room` under its own id and opens its channel, of
    /// `CHANNEL_CAPACITY` events, as one step. Fails with `AlreadyExists`,
    /// and changes nothing, exactly when a room has that id already. A
    /// channel that is there already is kept.
    pub fn create(&mut self, room: Room) -> (created: Result<(), HubError>)
        ensures
            match created {
                Ok(()) => !old(self)@.rooms.contains_key(room.room_id) && final(self)@ == old(
                    self,
                )@.with_room(room.room_id, room@).with_channel(room.room_id),
                Err(e) => old(self)@.rooms.contains_key(room.room_id) && e
                    == HubError::AlreadyExists && final(self)@ == old(self)@,
            },
            old(self)@.paired() ==> final(self)@.paired(),
    {
        let room_id = room.room_id;
        if self.contains(room_id) {
            return Err(HubError::AlreadyExists);
        }
        let ghost added = room@;
        table_insert(&mut self.room_info, room_id, room);
        if !self.has_channel(room_id) {
            let ends = channel_open(CHANNEL_CAPACITY);
            table_insert(&mut self.room_broadcast_couple, room_id, ends);
        }
        proof {
            assert(self@ == old(self)@.with_room(room_id, added).with_channel(room_id));
            if old(self)@.paired() {
                assert(self@.rooms.dom() =~= self@.channels.dom());
            }
        }
        Ok(())
    }

    /// Files `room` under `room_id`, in the place of what was filed there.
    pub(crate) fn replace(&mut self, room_id: i32, room: Room)
        ensures
            final(self)@ == old(self)@.with_room(room_id, room@),
    {
        table_insert(&mut self.room_info, room_id, room);
    }

    /// Removes the room `room_id` and its channel, as one step, and tells
    /// whether there was such a room. The hub's ends of the channel are
    /// dropped with it.
    pub fn remove(&mut self, room_id: i32) -> (removed: bool)
        ensures
            final(self)@ == old(self)@.without_room(room_id),
            removed == old(self)@.rooms.contains_key(room_id),
            old(self)@.paired() ==> final(self)@.paired(),
    {
        let removed = table_remove(&mut self.room_info, room_id);
        let _ = table_remove(&mut self.room_broadcast_couple, room_id);
        proof {
            if old(self)@.paired() {
                assert(self@.rooms.dom() =~= self@.channels.dom());
            }
        }
        removed
    }

    /// Hands `event` to the channel of the room `room_id`. Fails with
    /// `RoomGone` where the room has no channel, and where the channel has
    /// no receiver left. Where the room has a channel the event is recorded
    /// as offered, and as published if the channel accepted it; nothing else
    /// of the hub changes.
    pub fn publish(&mut self, room_id: i32, event: MessageType) -> (sent: Result<(), HubError>)
        ensures
            match sent {
                Ok(()) => old(self)@.channels.contains_key(room_id) && final(self)@ == old(
                    self,
                )@.with_published(room_id, event@),
                Err(e) => e == HubError::RoomGone && final(self)@ == old(self)@.with_refused(
                    room_id,
                    event@,
                ),
            },
            !old(self)@.channels.contains_key(room_id) ==> sent is Err,
            old(self)@.paired() ==> final(self)@.paired(),
    {
        let Some(sender) = channels_sender(&self.room_broadcast_couple, room_id) else {
            return Err(HubError::RoomGone);
        };
        let ghost handed = Broadcast { room_id, event: event@ };
        let sent = publish_outcome(sender.send(event));
        self.offered = Ghost(self.offered@.push(handed));
        if sent.is_ok() {
            self.published = Ghost(self.published@.push(handed));
        }
        sent
    }

    /// A new receiver on the channel of the room `room_id`, which gets what
    /// is published from now on; `None` exactly when the room has no channel.
    pub fn subscribe(&self, room_id: i32) -> (receiver: Option<Receiver<MessageType>>)
        ensures
            receiver is Some <==> self@.channels.contains_key(room_id),
    {
        match channels_sender(&self.room_broadcast_couple, room_id) {
            Some(sender) => Some(sender.subscribe()),
            None => None,
        }
    }

    /// Records that the closure of `player_id` is expected.
    pub fn expect_closure(&mut self, player_id: i32)
        ensures
            final(self)@ == old(self)@.with_expected(player_id),
    {
        table_insert(&mut self.normal_quit_room, player_id, ());
    }

    /// Whether the closure of `player_id` is expected.
    pub fn closure_expected(&self, player_id: i32) -> (expected: bool)
        ensures
            expected == self@.expected_closures.contains(player_id),
    {
        intents_contains(&self.normal_quit_room, player_id)
    }

    /// Records `time` as the last answer of `player_id` to a probe.
    pub fn record_pong(&mut self, player_id: i32, time: u64)
        ensures
            final(self)@ == old(self)@.with_pong(player_id, time),
    {
        table_insert(&mut self.last_pong, player_id, time);
    }

    /// The time of the last answer of `player_id`. For a player without a
    /// recorded answer that time is `now`, which is then recorded.
    pub fn last_pong_or(&mut self, player_id: i32, now: u64) -> (last: u64)
        ensures
            old(self)@.last_pong.contains_key(player_id) ==> last == old(
                self,
            )@.last_pong[player_id] && final(self)@ == old(self)@,
            !old(self)@.last_pong.contains_key(player_id) ==> last == now && final(self)@ == old(
                self,
            )@.with_pong(player_id, now),
    {
        pongs_get_or_insert(&mut self.last_pong, player_id, now)
    }

    /// Removes both liveness entries of `player_id`.
    pub fn forget(&mut self, player_id: i32)
        ensures
            final(self)@ == old(self)@.without_player(player_id),
    {
        let _ = table_remove(&mut self.normal_quit_room, player_id);
        let _ = table_remove(&mut self.last_pong, player_id);
    }
}

} // verus!
