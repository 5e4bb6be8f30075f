//! One connection's life: it joins a room, runs its three duties, drains
//! when the first of them ends, and is reconciled once when all have ended.

use crate::dto::response::MessageType;
use crate::error::HubError;
use crate::state::{HubView, InnerAppState};
use crate::types::{Player, Room};
use vstd::prelude::*;

verus! {

/// Where a session stands.
#[derive(Debug, Clone, Copy, PartialEq, Eq, Structural)]
pub enum SessionState {
    /// The parameters are valid; the player is not in the room yet.
    Handshaking,
    /// The player is in the room and the three duties run.
    Joined,
    /// A duty has ended; the session waits for the others.
    Draining,
    /// The session is over.
    Terminated,
}

/// The three duties of a joined connection.
#[derive(Debug, Clone, Copy, PartialEq, Eq, Structural)]
pub enum Duty {
    /// Turns inbound frames into events of the room.
    Reader,
    /// Turns events of the room into outbound frames.
    Forwarder,
    /// Probes the connection and gives it up when it stalls.
    Heartbeat,
}

/// The session of one connection.
#[derive(Debug, Clone, Copy, PartialEq, Eq, Structural)]
pub struct Session {
    pub player_id: i32,
    pub room_id: i32,
    pub state: SessionState,
    pub reader_done: bool,
    pub forwarder_done: bool,
    pub heartbeat_done: bool,
}

impl Session {
    /// Whether this session is the one of its room's host: a room's id is
    /// the player id of its host, and nothing else marks the host.
    pub open spec fn hosts(self) -> bool {
        self.room_id == self.player_id
    }

    /// Whether all three duties have ended.
    pub open spec fn drained(self) -> bool {
        self.reader_done && self.forwarder_done && self.heartbeat_done
    }

    /// Whether the session is due for reconciliation: it drains, and no
    /// duty is left.
    pub open spec fn due(self) -> bool {
        self.state == SessionState::Draining && self.drained()
    }

    /// This session after `duty` has ended. The first duty to end takes a
    /// joined session to draining; a session that has not joined, or is
    /// over, stays as it is.
    pub open spec fn after(self, duty: Duty) -> Session {
        if self.state == SessionState::Joined || self.state == SessionState::Draining {
            Session {
                state: SessionState::Draining,
                reader_done: self.reader_done || duty == Duty::Reader,
                forwarder_done: self.forwarder_done || duty == Duty::Forwarder,
                heartbeat_done: self.heartbeat_done || duty == Duty::Heartbeat,
                ..self
            }
        } else {
            self
        }
    }

    /// The session for `player_id` in the room `room_id` before it joins.
    pub open spec fn fresh(player_id: i32, room_id: i32) -> Session {
        Session {
            player_id,
            room_id,
            state: SessionState::Handshaking,
            reader_done: false,
            forwarder_done: false,
            heartbeat_done: false,
        }
    }

    /// A session for `player_id` in the room `room_id`, before it joins.
    pub fn new(player_id: i32, room_id: i32) -> (session: Session)
        ensures
            session == Session::fresh(player_id, room_id),
    {
        Session {
            player_id,
            room_id,
            state: SessionState::Handshaking,
            reader_done: false,
            forwarder_done: false,
            heartbeat_done: false,
        }
    }

    /// Whether this is the session of the room's host.
    pub fn is_host(&self) -> (host: bool)
        ensures
            host == self.hosts(),
    {
        self.room_id == self.player_id
    }

    /// Lets the session's player into its room, with a car of skin
    /// `skin_id` of their own, and returns the room's new snapshot, which is
    /// what the connection is sent first.
    ///
    /// Fails with `AlreadyJoined`, and changes nothing, when the session is
    /// past its handshake. Fails with `NotFound` when the room does not
    /// exist: the hub is left as it was and the session is over. On success
    /// the session is joined.
    pub fn join(&mut self, state: &mut InnerAppState, player: Player, skin_id: i32) -> (joined:
        Result<Room, HubError>)
        ensures
            match joined {
                Ok(snapshot) => {
                    &&& old(self).state == SessionState::Handshaking
                    &&& old(state)@.rooms.contains_key(old(self).room_id)
                    &&& final(state)@ == old(state)@.join(old(self).room_id, player@, skin_id)
                    &&& snapshot@ == final(state)@.rooms[old(self).room_id]
                    &&& *final(self) == (Session { state: SessionState::Joined, ..*old(self) })
                },
                Err(e) => {
                    &&& final(state)@ == old(state)@
                    &&& if old(self).state != SessionState::Handshaking {
                        e == HubError::AlreadyJoined && *final(self) == *old(self)
                    } else {
                        e == HubError::NotFound && !old(state)@.rooms.contains_key(
                            old(self).room_id,
                        ) && *final(self) == (Session {
                            state: SessionState::Terminated,
                            ..*old(self)
                        })
                    }
                },
            },
            old(state)@.paired() ==> final(state)@.paired(),
    {
        if self.state != SessionState::Handshaking {
            return Err(HubError::AlreadyJoined);
        }
        let mut room = match state.get(self.room_id) {
            Ok(room) => room,
            Err(e) => {
                self.state = SessionState::Terminated;
                return Err(e);
            },
        };
        room.join(player, skin_id);
        let snapshot = room.clone();
        state.replace(self.room_id, room);
        self.state = SessionState::Joined;
        proof {
            if old(state)@.paired() {
                assert(state@.rooms.dom() =~= state@.channels.dom());
            }
        }
        Ok(snapshot)
    }

    /// Publishes the snapshot of the session's room, so that every
    /// occupant converges on it. Fails with `NotFound` without the room and
    /// with `RoomGone` when the channel does not take the snapshot; a
    /// failure leaves nothing behind but the record of a refused offer.
    pub fn announce(&self, state: &mut InnerAppState) -> (told: Result<(), HubError>)
        ensures
            match told {
                Ok(()) => old(state)@.rooms.contains_key(self.room_id) && old(
                    state,
                )@.channels.contains_key(self.room_id) && final(state)@ == old(state)@.sync(
                    self.room_id,
                ),
                Err(e) => e == old(state)@.change_refusal(self.room_id) && final(state)@ == old(
                    state,
                )@.sync_refused(self.room_id),
            },
            !(old(state)@.rooms.contains_key(self.room_id) && old(state)@.channels.contains_key(
                self.room_id,
            )) ==> told is Err,
            old(state)@.paired() ==> final(state)@.paired(),
    {
        let room = match state.get(self.room_id) {
            Ok(room) => room,
            Err(e) => {
                return Err(e);
            },
        };
        state.publish(self.room_id, MessageType::Sync(room))
    }

    /// Records that `duty` has ended, and tells whether the session is now
    /// due for reconciliation.
    pub fn duty_finished(&mut self, duty: Duty) -> (due: bool)
        ensures
            *final(self) == old(self).after(duty),
            due == final(self).due(),
    {
        if self.state == SessionState::Joined || self.state == SessionState::Draining {
            self.state = SessionState::Draining;
            match duty {
                Duty::Reader => {
                    self.reader_done = true;
                },
                Duty::Forwarder => {
                    self.forwarder_done = true;
                },
                Duty::Heartbeat => {
                    self.heartbeat_done = true;
                },
            }
        }
        self.state == SessionState::Draining && self.reader_done && self.forwarder_done
            && self.heartbeat_done
    }

    /// This session with every duty ended. A session that has not joined,
    /// or is over, stays as it is.
    pub open spec fn abandoned(self) -> Session {
        self.after(Duty::Reader).after(Duty::Forwarder).after(Duty::Heartbeat)
    }

    /// Gives a joined session up before its duties run, or while they do:
    /// every duty counts as ended, and the session is reconciled as
    /// `reconcile` does it. The result tells whether it was.
    pub fn abandon(&mut self, state: &mut InnerAppState) -> (ran: bool)
        ensures
            ran == old(self).abandoned().due(),
            !ran ==> *final(self) == *old(self) && final(state)@ == old(state)@,
            ran ==> *final(self) == (Session {
                state: SessionState::Terminated,
                ..old(self).abandoned()
            }),
            ran && old(self).hosts() ==> final(state)@ == old(state)@.host_teardown(
                old(self).room_id,
            ),
            ran && !old(self).hosts() ==> {
                ||| final(state)@ == old(state)@.guest_departure(
                    old(self).room_id,
                    old(self).player_id,
                    true,
                )
                ||| final(state)@ == old(state)@.guest_departure(
                    old(self).room_id,
                    old(self).player_id,
                    false,
                )
            },
            old(state)@.paired() ==> final(state)@.paired(),
    {
        let _ = self.duty_finished(Duty::Reader);
        let _ = self.duty_finished(Duty::Forwarder);
        let _ = self.duty_finished(Duty::Heartbeat);
        self.reconcile(state)
    }

    /// Reconciles the hub with the end of this session, once.
    ///
    /// It runs only on a session that is due, and then ends it, so that a
    /// second call finds nothing to do: the result tells whether it ran.
    /// For the host, every other occupant's closure becomes expected, and
    /// the room and its channel are removed. For anyone else, the player
    /// leaves the room, if the room is still there, and the notice is
    /// offered to the room's channel, which publishes it if it takes it. In
    /// both cases the player's liveness entries are removed.
    pub fn reconcile(&mut self, state: &mut InnerAppState) -> (ran: bool)
        ensures
            ran == old(self).due(),
            !ran ==> *final(self) == *old(self) && final(state)@ == old(state)@,
            ran ==> *final(self) == (Session { state: SessionState::Terminated, ..*old(self) }),
            ran && old(self).hosts() ==> final(state)@ == old(state)@.host_teardown(
                old(self).room_id,
            ),
            ran && !old(self).hosts() ==> {
                ||| final(state)@ == old(state)@.guest_departure(
                    old(self).room_id,
                    old(self).player_id,
                    true,
                )
                ||| final(state)@ == old(state)@.guest_departure(
                    old(self).room_id,
                    old(self).player_id,
                    false,
                )
            },
            old(state)@.paired() ==> final(state)@.paired(),
    {
        if !(self.state == SessionState::Draining && self.reader_done && self.forwarder_done
            && self.heartbeat_done) {
            return false;
        }
        self.state = SessionState::Terminated;
        if self.room_id == self.player_id {
            expect_others(state, self.room_id, self.player_id);
            state.remove(self.room_id);
        } else {
            match state.get(self.room_id) {
                Ok(mut room) => {
                    let _ = room.quit(self.player_id);
                    state.replace(self.room_id, room);
                    proof {
                        crate::room::lemma_quit_keeps_room_id(
                            old(state)@.rooms[self.room_id],
                            self.player_id,
                        );
                        if old(state)@.paired() {
                            assert(state@.rooms.dom() =~= state@.channels.dom());
                        }
                    }
                },
                Err(_) => {},
            }
            let _ = state.publish(self.room_id, MessageType::Quit(self.player_id, self.room_id));
        }
        state.forget(self.player_id);
        true
    }
}

/// Marks the closure of every occupant of the room `room_id` but
/// `player_id` as expected. Without the room nothing changes.
pub fn expect_others(state: &mut InnerAppState, room_id: i32, player_id: i32)
    ensures
        final(state)@ == old(state)@.with_others_expected(room_id, player_id),
{
    let room = match state.get(room_id) {
        Ok(room) => room,
        Err(_) => {
            proof {
                assert(old(state)@.others_in(room_id, player_id) =~= Set::<i32>::empty());
                assert(old(state)@.expected_closures.union(Set::<i32>::empty())
                    =~= old(state)@.expected_closures);
            }
            return ;
        },
    };
    let ghost before = state@;
    let mut i: usize = 0;
    while i < room.players.len()
        invariant
            i <= room.players.len(),
            before.rooms.contains_key(room_id),
            room@ == before.rooms[room_id],
            state@ == (HubView {
                expected_closures: before.expected_closures.union(
                    Set::new(
                        |id: i32|
                            id != player_id && exists|k: int|
                                0 <= k < i && room@.players[k].player_id == id,
                    ),
                ),
                ..before
            }),
        decreases room.players.len() - i,
    {
        let id = room.players[i].player_id;
        let ghost marked = state@.expected_closures;
        if id != player_id {
            state.expect_closure(id);
        }
        proof {
            let seen = Set::new(
                |x: i32|
                    x != player_id && exists|k: int|
                        0 <= k < i && room@.players[k].player_id == x,
            );
            let seen_next = Set::new(
                |x: i32|
                    x != player_id && exists|k: int|
                        0 <= k < i + 1 && room@.players[k].player_id == x,
            );
            assert forall|x: i32| seen_next.contains(x) <==> seen.contains(x) || (x == id && id
                != player_id) by {
                if seen_next.contains(x) {
                    let k = choose|k: int| 0 <= k < i + 1 && room@.players[k].player_id == x;
                    if k < i {
                        assert(seen.contains(x));
                    }
                }
                if seen.contains(x) {
                    let k = choose|k: int| 0 <= k < i && room@.players[k].player_id == x;
                    assert(0 <= k < i + 1 && room@.players[k].player_id == x);
                }
                if x == id && id != player_id {
                    assert(room@.players[i as int].player_id == x);
                }
            }
            assert(state@.expected_closures =~= before.expected_closures.union(seen_next));
        }
        i += 1;
    }
    proof {
        let seen = Set::new(
            |x: i32|
                x != player_id && exists|k: int|
                    0 <= k < room.players.len() && room@.players[k].player_id == x,
        );
        assert(seen =~= before.others_in(room_id, player_id));
    }
}

} // verus!
