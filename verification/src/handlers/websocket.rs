//! A connection: the check of its parameters, its entry into the room, and
//! the decisions of its three duties. The transport stays with the caller,
//! which hands each frame, event and tick to the duty that it concerns and
//! carries out what the duty answers.

use crate::decimal::{decimal_i32, parse_i32};
use crate::dto::response::{MessageType, MessageTypeView};
use crate::error::HubError;
use crate::session::{expect_others, Session, SessionState};
use crate::state::{HubView, InnerAppState};
use crate::transitions::{accepted, departures, not_player};
use crate::types::{Player, PlayerView, Room};
use crate::wire::{
    chat_event, encode_event, encode_sync, event_json, inbound_event_of, json_rendered, parse_chat,
    sync_json,
};
use vstd::prelude::*;
use vstd::string::StringExecFns;

verus! {

/// The parameters of a connection, by name.
#[derive(Debug, Clone, Copy, PartialEq, Eq, Structural)]
pub enum ParamName {
    PlayerId,
    RoomId,
    PlayerName,
    CarId,
    WeatherId,
    BackgroundId,
    SkinId,
}

/// What is wrong with a parameter.
#[derive(Debug, Clone, Copy, PartialEq, Eq, Structural)]
pub enum ParamFault {
    /// The parameter was not given.
    Missing,
    /// The parameter does not read as what it must be.
    Malformed,
}

/// A connection is refused for one of its parameters.
#[derive(Debug, Clone, Copy, PartialEq, Eq, Structural)]
pub struct BadParameter {
    pub name: ParamName,
    pub fault: ParamFault,
}

impl ParamName {
    /// The name under which the parameter is given.
    pub open spec fn key_of(self) -> Seq<char> {
        match self {
            ParamName::PlayerId => "player_id"@,
            ParamName::RoomId => "room_id"@,
            ParamName::PlayerName => "player_name"@,
            ParamName::CarId => "car_id"@,
            ParamName::WeatherId => "weather_id"@,
            ParamName::BackgroundId => "background_id"@,
            ParamName::SkinId => "skin_id"@,
        }
    }

    /// The name under which the parameter is given.
    pub fn key(&self) -> (key: &'static str)
        ensures
            key@ == self.key_of(),
    {
        match self {
            ParamName::PlayerId => "player_id",
            ParamName::RoomId => "room_id",
            ParamName::PlayerName => "player_name",
            ParamName::CarId => "car_id",
            ParamName::WeatherId => "weather_id",
            ParamName::BackgroundId => "background_id",
            ParamName::SkinId => "skin_id",
        }
    }
}

impl BadParameter {
    /// What the refusal says: what is wrong, and with which parameter. The
    /// parameter is named by the name under which it is given.
    pub open spec fn message_of(self) -> Seq<char> {
        match self.fault {
            ParamFault::Missing => "缺少"@ + self.name.key_of() + "参数"@,
            ParamFault::Malformed => self.name.key_of() + "参数格式错误"@,
        }
    }

    /// What the refusal says: what is wrong, and with which parameter.
    pub fn message(&self) -> (text: String)
        ensures
            text@ == self.message_of(),
    {
        match self.fault {
            ParamFault::Missing => {
                let mut text = String::from_str("缺少");
                text.append(self.name.key());
                text.append("参数");
                text
            },
            ParamFault::Malformed => {
                let mut text = String::from_str(self.name.key());
                text.append("参数格式错误");
                text
            },
        }
    }
}

/// The parameters of a connection as they arrive: texts, given or not.
#[derive(Debug, PartialEq, Eq)]
pub struct ConnectParams {
    pub player_id: Option<String>,
    pub room_id: Option<String>,
    pub player_name: Option<String>,
    pub car_id: Option<String>,
    pub weather_id: Option<String>,
    pub background_id: Option<String>,
    pub skin_id: Option<String>,
}

/// What a [`ConnectRequest`] is, as plain values.
#[verifier::ext_equal]
pub struct ConnectRequestView {
    pub player_id: i32,
    pub room_id: i32,
    pub player_name: Seq<char>,
    pub car_id: i32,
    pub weather_id: i32,
    pub background_id: i32,
    pub skin_id: i32,
}

/// The parameters of a connection, checked.
#[derive(Debug, PartialEq, Eq)]
pub struct ConnectRequest {
    pub player_id: i32,
    pub room_id: i32,
    pub player_name: String,
    pub car_id: i32,
    pub weather_id: i32,
    pub background_id: i32,
    pub skin_id: i32,
}

impl View for ConnectRequest {
    type V = ConnectRequestView;

    open spec fn view(&self) -> ConnectRequestView {
        ConnectRequestView {
            player_id: self.player_id,
            room_id: self.room_id,
            player_name: self.player_name@,
            car_id: self.car_id,
            weather_id: self.weather_id,
            background_id: self.background_id,
            skin_id: self.skin_id,
        }
    }
}

impl ConnectRequestView {
    /// The player that the request brings into the room.
    pub open spec fn player(self) -> PlayerView {
        PlayerView {
            player_id: self.player_id,
            player_name: self.player_name,
            car_id: self.car_id,
            weather_id: self.weather_id,
            background_id: self.background_id,
        }
    }
}

/// The text of a parameter, where it was given.
pub open spec fn given(raw: Option<String>) -> Option<Seq<char>> {
    match raw {
        Some(text) => Some(text@),
        None => None,
    }
}

/// What a numeric parameter reads as: its number, or what is wrong with it.
pub open spec fn number_of(raw: Option<Seq<char>>, name: ParamName) -> Result<i32, BadParameter> {
    match raw {
        None => Err(BadParameter { name, fault: ParamFault::Missing }),
        Some(text) => match decimal_i32(text) {
            Some(number) => Ok(number),
            None => Err(BadParameter { name, fault: ParamFault::Malformed }),
        },
    }
}

/// What the parameters of a connection read as. They are checked in the
/// order player id, room id, player name, car, weather, background, skin,
/// and the first that fails refuses the connection. Every parameter is
/// required; all but the name must be numbers of 32 bits in decimal.
pub open spec fn connect_request_of(params: ConnectParams) -> Result<
    ConnectRequestView,
    BadParameter,
> {
    match number_of(given(params.player_id), ParamName::PlayerId) {
        Err(e) => Err(e),
        Ok(player_id) => match number_of(given(params.room_id), ParamName::RoomId) {
            Err(e) => Err(e),
            Ok(room_id) => match given(params.player_name) {
                None => Err(
                    BadParameter { name: ParamName::PlayerName, fault: ParamFault::Missing },
                ),
                Some(player_name) => match number_of(given(params.car_id), ParamName::CarId) {
                    Err(e) => Err(e),
                    Ok(car_id) => match number_of(given(params.weather_id), ParamName::WeatherId) {
                        Err(e) => Err(e),
                        Ok(weather_id) => match number_of(
                            given(params.background_id),
                            ParamName::BackgroundId,
                        ) {
                            Err(e) => Err(e),
                            Ok(background_id) => match number_of(
                                given(params.skin_id),
                                ParamName::SkinId,
                            ) {
                                Err(e) => Err(e),
                                Ok(skin_id) => Ok(
                                    ConnectRequestView {
                                        player_id,
                                        room_id,
                                        player_name,
                                        car_id,
                                        weather_id,
                                        background_id,
                                        skin_id,
                                    },
                                ),
                            },
                        },
                    },
                },
            },
        },
    }
}

/// Reads a numeric parameter.
pub fn number_param(raw: &Option<String>, name: ParamName) -> (number: Result<i32, BadParameter>)
    ensures
        number == number_of(given(*raw), name),
{
    match raw {
        None => Err(BadParameter { name, fault: ParamFault::Missing }),
        Some(text) => match parse_i32(text.as_str()) {
            Some(number) => Ok(number),
            None => Err(BadParameter { name, fault: ParamFault::Malformed }),
        },
    }
}

/// Checks the parameters of a connection before anything is done for it.
/// The result is the checked request, or the first parameter that is
/// missing or malformed.
pub fn websocket_handler(params: &ConnectParams) -> (checked: Result<ConnectRequest, BadParameter>)
    ensures
        match checked {
            Ok(request) => connect_request_of(*params) == Ok::<ConnectRequestView, BadParameter>(
                request@,
            ),
            Err(e) => connect_request_of(*params) == Err::<ConnectRequestView, BadParameter>(e),
        },
{
    let player_id = match number_param(&params.player_id, ParamName::PlayerId) {
        Ok(number) => number,
        Err(e) => {
            return Err(e);
        },
    };
    let room_id = match number_param(&params.room_id, ParamName::RoomId) {
        Ok(number) => number,
        Err(e) => {
            return Err(e);
        },
    };
    let player_name = match &params.player_name {
        Some(name) => name.clone(),
        None => {
            return Err(BadParameter { name: ParamName::PlayerName, fault: ParamFault::Missing });
        },
    };
    let car_id = match number_param(&params.car_id, ParamName::CarId) {
        Ok(number) => number,
        Err(e) => {
            return Err(e);
        },
    };
    let weather_id = match number_param(&params.weather_id, ParamName::WeatherId) {
        Ok(number) => number,
        Err(e) => {
            return Err(e);
        },
    };
    let background_id = match number_param(&params.background_id, ParamName::BackgroundId) {
        Ok(number) => number,
        Err(e) => {
            return Err(e);
        },
    };
    let skin_id = match number_param(&params.skin_id, ParamName::SkinId) {
        Ok(number) => number,
        Err(e) => {
            return Err(e);
        },
    };
    Ok(
        ConnectRequest {
            player_id,
            room_id,
            player_name,
            car_id,
            weather_id,
            background_id,
            skin_id,
        },
    )
}

/// Lets a checked connection into its room: the player and a car of their
/// own are appended to the room, and the result is the connection's session,
/// now joined, with the room's snapshot, which is what the connection is
/// sent first. Fails with `NotFound`, and changes nothing, exactly when the
/// room does not exist.
pub fn handle_websocket(state: &mut InnerAppState, request: &ConnectRequest) -> (entered: Result<
    (Session, Room),
    HubError,
>)
    ensures
        match entered {
            Ok((session, snapshot)) => {
                &&& old(state)@.rooms.contains_key(request.room_id)
                &&& final(state)@ == old(state)@.join(
                    request.room_id,
                    request@.player(),
                    request.skin_id,
                )
                &&& snapshot@ == final(state)@.rooms[request.room_id]
                &&& session == (Session {
                    state: SessionState::Joined,
                    ..Session::fresh(request.player_id, request.room_id)
                })
            },
            Err(e) => {
                &&& e == HubError::NotFound
                &&& !old(state)@.rooms.contains_key(request.room_id)
                &&& final(state)@ == old(state)@
            },
        },
        old(state)@.paired() ==> final(state)@.paired(),
{
    let mut session = Session::new(request.player_id, request.room_id);
    let player = Player {
        player_id: request.player_id,
        player_name: request.player_name.clone(),
        car_id: request.car_id,
        weather_id: request.weather_id,
        background_id: request.background_id,
    };
    match session.join(state, player, request.skin_id) {
        Ok(snapshot) => Ok((session, snapshot)),
        Err(e) => Err(e),
    }
}

/// What a frame that arrived on a connection is.
#[derive(Debug, Clone, PartialEq, Eq)]
pub enum Inbound {
    /// A text frame, with its text.
    Text(String),
    /// A binary frame.
    Binary,
    /// A probe of the peer.
    Ping,
    /// The peer's answer to a probe.
    Pong,
    /// The peer closes the connection.
    Close,
    /// The transport is closed, or failed.
    Ended,
}

/// Whether a duty goes on.
#[derive(Debug, Clone, Copy, PartialEq, Eq, Structural)]
pub enum ReaderStep {
    /// The duty waits for the next frame.
    Continue,
    /// The duty has ended.
    Stop,
}

/// What the reader duty answers to a frame: it ends on a close, whoever
/// closes and whatever is left of the room, and when the transport has
/// ended; every other frame lets it go on.
pub open spec fn reader_step_of(frame: Inbound) -> ReaderStep {
    match frame {
        Inbound::Close => ReaderStep::Stop,
        Inbound::Ended => ReaderStep::Stop,
        _ => ReaderStep::Continue,
    }
}

/// Whether `after` is the hub that the reader duty can leave on a frame.
///
/// A text frame that reads as a chat frame of kind `text` or `emoji`
/// offers that event to the room; any other text changes nothing. An
/// answer to a probe is recorded with the time `now`. A close by the host,
/// while the room exists, makes the closure of every other occupant
/// expected and offers one notice per entry of the player list but the
/// host's own; a close by anyone else makes the player's own closure
/// expected and offers the player's notice. Nothing else changes the hub.
pub open spec fn reader_leaves(
    before: HubView,
    after: HubView,
    room_id: i32,
    player_id: i32,
    now: u64,
    frame: Inbound,
) -> bool {
    match frame {
        Inbound::Text(text) => match inbound_event_of(text@) {
            Some(event) => before.offered(after, room_id, event),
            None => after == before,
        },
        Inbound::Pong => after == before.with_pong(player_id, now),
        Inbound::Close => if room_id != player_id {
            before.with_expected(player_id).offered(
                after,
                room_id,
                MessageTypeView::Quit(player_id, room_id),
            )
        } else if before.rooms.contains_key(room_id) {
            before.with_others_expected(room_id, player_id).offered_all(
                after,
                room_id,
                departures(before.rooms[room_id].players, room_id, player_id),
            )
        } else {
            after == before
        },
        _ => after == before,
    }
}

/// Offers the notices of a host's departure to the room's channel: one
/// per entry of the player list but the host's own, in the order of the
/// list.
fn offer_departures(state: &mut InnerAppState, room_id: i32, room: &Room, host: i32)
    ensures
        old(state)@.offered_all(
            final(state)@,
            room_id,
            departures(room@.players, room_id, host),
        ),
{
    let ghost before = state@;
    let ghost players = room@.players;
    let ghost mut taken: Seq<bool> = Seq::empty();
    let mut i: usize = 0;
    proof {
        assert(players.take(0) =~= Seq::<PlayerView>::empty());
        assert(departures(players.take(0), room_id, host) =~= Seq::<MessageTypeView>::empty());
        assert(before.with_offers(room_id, Seq::<MessageTypeView>::empty(), taken) == before);
    }
    while i < room.players.len()
        invariant
            i <= room.players.len(),
            players == room@.players,
            before.channels.contains_key(room_id) ==> taken.len() == departures(
                players.take(i as int),
                room_id,
                host,
            ).len() && state@ == before.with_offers(
                room_id,
                departures(players.take(i as int), room_id, host),
                taken,
            ),
            !before.channels.contains_key(room_id) ==> state@ == before,
        decreases room.players.len() - i,
    {
        let id = room.players[i].player_id;
        let ghost earlier = departures(players.take(i as int), room_id, host);
        proof {
            assert(players.take(i + 1) == players.take(i as int).push(players[i as int]));
            players.take(i as int).lemma_filter_push(players[i as int], not_player(host));
        }
        if id != host {
            let notice = MessageType::Quit(id, room_id);
            let sent = state.publish(room_id, notice);
            proof {
                let longer = departures(players.take(i + 1), room_id, host);
                assert(longer == earlier.push(notice@));
                if before.channels.contains_key(room_id) {
                    let taken_next = taken.push(sent is Ok);
                    assert(longer.drop_last() == earlier);
                    assert(taken_next.drop_last() == taken);
                    assert(accepted(longer, taken_next) == if sent is Ok {
                        accepted(earlier, taken).push(notice@)
                    } else {
                        accepted(earlier, taken)
                    });
                    assert(state@ == before.with_offers(room_id, longer, taken_next));
                    taken = taken_next;
                }
            }
        }
        i += 1;
    }
    proof {
        assert(players.take(room.players.len() as int) == players);
    }
}

/// The reader duty, for one frame of the connection of `player_id` in the
/// room `room_id`, at the time `now`.
///
/// A frame that cannot be read is skipped: it never ends the duty. The
/// duty ends on a close, and when the transport has ended.
pub fn handle_ws_to_broadcast(
    state: &mut InnerAppState,
    room_id: i32,
    player_id: i32,
    now: u64,
    frame: &Inbound,
) -> (step: ReaderStep)
    ensures
        step == reader_step_of(*frame),
        reader_leaves(old(state)@, final(state)@, room_id, player_id, now, *frame),
{
    match frame {
        Inbound::Text(text) => {
            if let Some(chat) = parse_chat(text.as_str()) {
                if let Some(event) = chat_event(chat) {
                    let _ = state.publish(room_id, event);
                }
            }
            ReaderStep::Continue
        },
        Inbound::Pong => {
            state.record_pong(player_id, now);
            ReaderStep::Continue
        },
        Inbound::Close => {
            if room_id == player_id {
                match state.get(room_id) {
                    Ok(room) => {
                        expect_others(state, room_id, player_id);
                        offer_departures(state, room_id, &room, player_id);
                    },
                    Err(_) => {},
                }
            } else {
                state.expect_closure(player_id);
                let _ = state.publish(room_id, MessageType::Quit(player_id, room_id));
            }
            ReaderStep::Stop
        },
        Inbound::Binary => ReaderStep::Continue,
        Inbound::Ping => ReaderStep::Continue,
        Inbound::Ended => ReaderStep::Stop,
    }
}

/// What a subscriber got from its room's channel.
#[derive(Debug, Clone, PartialEq, Eq)]
pub enum Received {
    /// The next event.
    Event(MessageType),
    /// The subscriber fell behind, and that many events were skipped.
    Lagged(u64),
    /// The channel is closed for good: the room is destroyed.
    Closed,
}

/// Why the server closes a connection.
#[derive(Debug, Clone, Copy, PartialEq, Eq, Structural)]
pub enum CloseReason {
    /// The player quit, and the closure was expected.
    UserQuit,
    /// The room is destroyed under the connection.
    Forced,
}

/// What a [`Outbound`] is, as plain values.
pub enum OutboundView {
    Text(Seq<char>),
    Close(CloseReason),
}

/// A frame to write to the connection.
#[derive(Debug, Clone, PartialEq, Eq)]
pub enum Outbound {
    /// A text frame, with its text.
    Text(String),
    /// A close frame.
    Close(CloseReason),
}

impl View for Outbound {
    type V = OutboundView;

    open spec fn view(&self) -> OutboundView {
        match self {
            Outbound::Text(text) => OutboundView::Text(text@),
            Outbound::Close(reason) => OutboundView::Close(*reason),
        }
    }
}

/// What the forwarder duty answers: the frames to write, in their order,
/// and whether the duty has ended.
#[derive(Debug, Clone, PartialEq, Eq)]
pub struct ForwardStep {
    pub frames: Vec<Outbound>,
    pub done: bool,
}

impl ForwardStep {
    /// The frames to write, as plain values.
    pub open spec fn frames_view(self) -> Seq<OutboundView> {
        self.frames@.map_values(|frame: Outbound| frame@)
    }

    /// Whether the forwarder duty has ended after this step, given whether
    /// the step's frames could be written: it has when the step says so,
    /// and when there was a frame to write and the transport failed on it.
    pub open spec fn ended_after(self, written: bool) -> bool {
        self.done || (self.frames@.len() > 0 && !written)
    }

    /// Whether the forwarder duty has ended after this step. `written`
    /// tells whether every frame of the step could be written to the
    /// connection; it counts for nothing where the step has no frame.
    pub fn ended(&self, written: bool) -> (ended: bool)
        ensures
            ended == self.ended_after(written),
    {
        self.done || (self.frames.len() > 0 && !written)
    }
}

impl CloseReason {
    /// The status code of the close frame.
    pub open spec fn code_of(self) -> u16 {
        match self {
            CloseReason::UserQuit => 1000,
            CloseReason::Forced => 1008,
        }
    }

    /// The reason text of the close frame.
    pub open spec fn text_of(self) -> Seq<char> {
        match self {
            CloseReason::UserQuit => "User quit"@,
            CloseReason::Forced => "inactivetimeout"@,
        }
    }

    /// The status code of the close frame: 1000 for a player who quit,
    /// 1008 for a connection whose room is destroyed.
    pub fn code(&self) -> (code: u16)
        ensures
            code == self.code_of(),
    {
        match self {
            CloseReason::UserQuit => 1000,
            CloseReason::Forced => 1008,
        }
    }

    /// The reason text of the close frame.
    pub fn reason(&self) -> (text: &'static str)
        ensures
            text@ == self.text_of(),
    {
        match self {
            CloseReason::UserQuit => "User quit",
            CloseReason::Forced => "inactivetimeout",
        }
    }
}

/// The frames that the forwarder duty writes on the player's own notice
/// of quitting the room `room_id`: the room's snapshot as it is now, where
/// the room is there, and then the close, where the closure is expected.
pub open spec fn farewell_frames(hub: HubView, player_id: i32, room_id: i32) -> Seq<OutboundView> {
    let snapshot = if hub.rooms.contains_key(room_id) {
        seq![OutboundView::Text(json_rendered(sync_json(hub.rooms[room_id])))]
    } else {
        Seq::empty()
    };
    if hub.expected_closures.contains(player_id) {
        snapshot.push(OutboundView::Close(CloseReason::UserQuit))
    } else {
        snapshot
    }
}

/// The frames that the forwarder duty writes for what it received, on the
/// hub `hub`, in their order: the text of a chat line, an emoji or a
/// snapshot; the farewell for the player's own notice of quitting; a
/// forced close when the channel is closed; nothing else.
pub open spec fn forward_frames_of(hub: HubView, player_id: i32, received: Received) -> Seq<
    OutboundView,
> {
    match received {
        Received::Event(event) => match event@ {
            MessageTypeView::Quit(quitter, room_id) => if quitter == player_id {
                farewell_frames(hub, player_id, room_id)
            } else {
                Seq::empty()
            },
            _ => seq![OutboundView::Text(json_rendered(event_json(event@)->0))],
        },
        Received::Lagged(_) => Seq::empty(),
        Received::Closed => seq![OutboundView::Close(CloseReason::Forced)],
    }
}

/// Whether the forwarder duty has ended with what it received: it ends on
/// the player's own notice of quitting, and when the channel is closed.
pub open spec fn forward_done_of(player_id: i32, received: Received) -> bool {
    match received {
        Received::Event(event) => match event@ {
            MessageTypeView::Quit(quitter, _) => quitter == player_id,
            _ => false,
        },
        Received::Lagged(_) => false,
        Received::Closed => true,
    }
}

/// The forwarder duty, for one thing that the connection of `player_id`
/// got from its room's channel. It reads the hub and changes nothing.
///
/// Events come out as text frames, but notices of quitting: one that names
/// another player is passed over; one that names this player ends the duty,
/// after the room's snapshot, read afresh, and then the close, if the
/// closure is expected. Events that were skipped because the subscriber
/// fell behind are passed over in silence. A closed channel ends the duty
/// with a forced close.
pub fn handle_broadcast_to_ws(state: &InnerAppState, player_id: i32, received: &Received) -> (step:
    ForwardStep)
    ensures
        step.frames_view() == forward_frames_of(state@, player_id, *received),
        step.done == forward_done_of(player_id, *received),
{
    let mut frames: Vec<Outbound> = Vec::new();
    let done = match received {
        Received::Event(MessageType::Quit(quitter, room_id)) => {
            if *quitter == player_id {
                match state.get(*room_id) {
                    Ok(room) => {
                        frames.push(Outbound::Text(encode_sync(&room)));
                    },
                    Err(_) => {},
                }
                if state.closure_expected(player_id) {
                    frames.push(Outbound::Close(CloseReason::UserQuit));
                }
                true
            } else {
                false
            }
        },
        Received::Event(event) => {
            match encode_event(event) {
                Some(text) => {
                    frames.push(Outbound::Text(text));
                },
                None => {},
            }
            false
        },
        Received::Lagged(_) => false,
        Received::Closed => {
            frames.push(Outbound::Close(CloseReason::Forced));
            true
        },
    };
    let step = ForwardStep { frames, done };
    assert(step.frames_view() =~= forward_frames_of(state@, player_id, *received));
    step
}

/// How long the heartbeat duty waits between two probes, in time units.
pub const HEARTBEAT_INTERVAL: u64 = 5;

/// How long a connection may stay without an answer to a probe, in time
/// units, before the heartbeat duty gives it up.
pub const STALE_AFTER: u64 = 10;

/// What the heartbeat duty answers to a tick.
#[derive(Debug, Clone, Copy, PartialEq, Eq, Structural)]
pub enum HeartbeatStep {
    /// The connection is alive: probe it, and wait for the next tick.
    Probe,
    /// The connection is dead: the duty has ended.
    Dead,
}

impl HeartbeatStep {
    /// Whether the heartbeat duty has ended after this step, given whether
    /// the probe could be sent: it has when the connection is dead, and
    /// when the transport failed on the probe.
    pub open spec fn ended_after(self, probed: bool) -> bool {
        self == HeartbeatStep::Dead || !probed
    }

    /// Whether the heartbeat duty has ended after this step. `probed` tells
    /// whether the probe could be sent; for a dead connection, which is not
    /// probed, it counts for nothing.
    pub fn ended(&self, probed: bool) -> (ended: bool)
        ensures
            ended == self.ended_after(probed),
    {
        match self {
            HeartbeatStep::Dead => true,
            HeartbeatStep::Probe => !probed,
        }
    }
}

/// The time of the last answer that counts at a tick: the recorded one, or
/// the time of the tick for a player without one, who has just connected.
pub open spec fn last_answer(before: HubView, player_id: i32, now: u64) -> u64 {
    if before.last_pong.contains_key(player_id) {
        before.last_pong[player_id]
    } else {
        now
    }
}

/// Whether a connection is stale at the time `now`: more than `STALE_AFTER`
/// time units have passed since its last answer.
pub open spec fn stale(last: u64, now: u64) -> bool {
    now - last > STALE_AFTER
}

/// What the heartbeat duty answers to a tick at the time `now`.
pub open spec fn heartbeat_step_of(before: HubView, player_id: i32, now: u64) -> HeartbeatStep {
    if stale(last_answer(before, player_id, now), now) {
        HeartbeatStep::Dead
    } else {
        HeartbeatStep::Probe
    }
}

/// Whether a connection whose last answer came at `last` is stale at `now`.
pub fn is_stale(last: u64, now: u64) -> (gone: bool)
    ensures
        gone == stale(last, now),
{
    now > last && now - last > STALE_AFTER
}

/// The heartbeat duty, for one tick of the connection of `player_id` at the
/// time `now`. The first tick of a player records `now` as the player's last
/// answer; no other tick changes the hub.
pub fn heartbeat_task(state: &mut InnerAppState, player_id: i32, now: u64) -> (step: HeartbeatStep)
    ensures
        step == heartbeat_step_of(old(state)@, player_id, now),
        final(state)@ == if old(state)@.last_pong.contains_key(player_id) {
            old(state)@
        } else {
            old(state)@.with_pong(player_id, now)
        },
{
    let last = state.last_pong_or(player_id, now);
    if is_stale(last, now) {
        HeartbeatStep::Dead
    } else {
        HeartbeatStep::Probe
    }
}

} // verus!
