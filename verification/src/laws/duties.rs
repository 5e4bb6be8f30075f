//! Laws of a connection: its three duties, and how it ends.

use crate::dto::response::MessageTypeView;
use crate::handlers::websocket::{
    farewell_frames, forward_done_of, forward_frames_of, heartbeat_step_of, CloseReason, ForwardStep, HeartbeatStep,
    OutboundView, Received, STALE_AFTER,
};
use crate::laws::rooms::law_quit_leaves_no_trace;
use crate::session::{Duty, Session, SessionState};
use crate::state::{Broadcast, HubView};
use crate::transitions::{departures, not_player};
use crate::types::RoomView;
use crate::wire::{json_rendered, sync_json};
use vstd::prelude::*;

verus! {

/// A forwarder that finds its channel closed, which is what the removal of
/// the room brings about, writes a forced close and ends: it does not hang,
/// whatever the hub holds and whoever the player is.
pub proof fn law_closed_channel_forces_close(hub: HubView, player_id: i32)
    ensures
        forward_frames_of(hub, player_id, Received::Closed) == seq![
            OutboundView::Close(CloseReason::Forced),
        ],
        forward_done_of(player_id, Received::Closed),
{
}

/// The heartbeat duty gives a connection up exactly when the player's last
/// recorded answer is more than the threshold old. A player without a
/// recorded answer has just connected and is probed; so is every player
/// whose answers keep coming within the threshold.
pub proof fn law_heartbeat_threshold(hub: HubView, player_id: i32, now: u64)
    ensures
        heartbeat_step_of(hub, player_id, now) == HeartbeatStep::Dead <==> hub.last_pong.contains_key(
            player_id,
        ) && now - hub.last_pong[player_id] > STALE_AFTER,
        !hub.last_pong.contains_key(player_id) ==> heartbeat_step_of(hub, player_id, now)
            == HeartbeatStep::Probe,
        forall|answered: u64|
            now - answered <= STALE_AFTER ==> heartbeat_step_of(
                #[trigger] hub.with_pong(player_id, answered),
                player_id,
                now,
            ) == HeartbeatStep::Probe,
{
}

/// On the player's own notice of quitting, where the room is there and the
/// closure is expected, the forwarder writes two frames and ends: first the
/// room's snapshot as the hub holds it at that moment, then the close for
/// a player who quit. Without the expectation it writes the snapshot
/// alone, and without the room the close alone, and ends all the same.
pub proof fn law_own_quit_is_answered_with_snapshot_and_close(
    hub: HubView,
    player_id: i32,
    room_id: i32,
)
    ensures
        hub.rooms.contains_key(room_id) && hub.expected_closures.contains(player_id)
            ==> farewell_frames(hub, player_id, room_id) == seq![
            OutboundView::Text(json_rendered(sync_json(hub.rooms[room_id]))),
            OutboundView::Close(CloseReason::UserQuit),
        ],
        hub.rooms.contains_key(room_id) && !hub.expected_closures.contains(player_id)
            ==> farewell_frames(hub, player_id, room_id) == seq![
            OutboundView::Text(json_rendered(sync_json(hub.rooms[room_id]))),
        ],
        !hub.rooms.contains_key(room_id) && hub.expected_closures.contains(player_id)
            ==> farewell_frames(hub, player_id, room_id) == seq![
            OutboundView::Close(CloseReason::UserQuit),
        ],
        !hub.rooms.contains_key(room_id) && !hub.expected_closures.contains(player_id)
            ==> farewell_frames(hub, player_id, room_id).len() == 0,
{
}

/// The notices of a host's departure name the other occupants and nobody
/// else: every entry of the player list with another id than the host's
/// has its notice, no notice names the host, and every notice names a
/// player of the room.
pub proof fn law_host_close_notifies_others(room: RoomView, room_id: i32, host: i32)
    ensures
        !departures(room.players, room_id, host).contains(MessageTypeView::Quit(host, room_id)),
        forall|id: i32|
            #[trigger] room.has_player(id) && id != host ==> departures(
                room.players,
                room_id,
                host,
            ).contains(MessageTypeView::Quit(id, room_id)),
        forall|k: int|
            0 <= k < departures(room.players, room_id, host).len() ==> {
                &&& (#[trigger] departures(room.players, room_id, host)[k]) matches MessageTypeView::Quit(
                    id,
                    to,
                )
                &&& to == room_id
                &&& id != host
                &&& room.has_player(id)
            },
        departures(room.players, room_id, host).len() <= room.players.len(),
{
    let others = room.players.filter(not_player(host));
    let notices = departures(room.players, room_id, host);
    room.players.lemma_filter_len(not_player(host));
    assert forall|k: int| 0 <= k < notices.len() implies {
        &&& (#[trigger] notices[k]) matches MessageTypeView::Quit(id, to)
        &&& to == room_id
        &&& id != host
        &&& room.has_player(id)
    } by {
        room.players.lemma_filter_pred(not_player(host), k);
        assert(others.contains(others[k]));
        room.players.lemma_filter_contains_rev(not_player(host), others[k]);
        let i = choose|i: int| 0 <= i < room.players.len() && room.players[i] == others[k];
        assert(room.players[i].player_id == others[k].player_id);
    }
    if notices.contains(MessageTypeView::Quit(host, room_id)) {
        let k = choose|k: int|
            0 <= k < notices.len() && notices[k] == MessageTypeView::Quit(host, room_id);
        assert(notices[k] matches MessageTypeView::Quit(id, to) && id != host);
    }
    assert forall|id: i32| #[trigger] room.has_player(id) && id != host implies notices.contains(
        MessageTypeView::Quit(id, room_id),
    ) by {
        let i = choose|i: int| 0 <= i < room.players.len() && room.players[i].player_id == id;
        assert(not_player(host)(room.players[i]));
        room.players.lemma_filter_contains(not_player(host), i);
        let k = choose|k: int| 0 <= k < others.len() && others[k] == room.players[i];
        assert(notices[k] == MessageTypeView::Quit(id, room_id));
    }
}

/// A guest whose answers have stopped is given up and, once reconciled,
/// gone: the heartbeat duty ends on the first tick beyond the threshold;
/// and after the reconciliation of a player who was listed once in the
/// room, no entry of the room has the player's id, no car seats the
/// player, no liveness entry is left, and the notice was offered to the
/// room's channel, whether the channel took it or not.
pub proof fn law_stale_guest_is_removed(
    hub: HubView,
    room_id: i32,
    player_id: i32,
    now: u64,
    announced: bool,
)
    requires
        hub.rooms.contains_key(room_id),
        hub.rooms[room_id].has_player(player_id),
        hub.rooms[room_id].player_ids().no_duplicates(),
        hub.last_pong.contains_key(player_id),
        now - hub.last_pong[player_id] > STALE_AFTER,
    ensures
        heartbeat_step_of(hub, player_id, now) == HeartbeatStep::Dead,
        hub.guest_departure(room_id, player_id, announced).rooms.contains_key(room_id),
        !hub.guest_departure(room_id, player_id, announced).rooms[room_id].has_player(player_id),
        !hub.guest_departure(room_id, player_id, announced).rooms[room_id].seated(player_id),
        !hub.guest_departure(room_id, player_id, announced).last_pong.contains_key(player_id),
        !hub.guest_departure(room_id, player_id, announced).expected_closures.contains(player_id),
        hub.channels.contains_key(room_id) ==> hub.guest_departure(
            room_id,
            player_id,
            announced,
        ).offered == hub.offered.push(
            Broadcast { room_id, event: MessageTypeView::Quit(player_id, room_id) },
        ),
{
    law_quit_leaves_no_trace(hub.rooms[room_id], player_id);
}

/// Whether a write succeeds is the transport's business, and a write that
/// fails ends the duty that made it: the forwarder has ended after a step
/// exactly when the step said so or its frame could not be written, and
/// the heartbeat exactly when the connection is dead or the probe could
/// not be sent.
pub proof fn law_failed_write_ends_duty(step: ForwardStep, beat: HeartbeatStep, written: bool)
    ensures
        step.ended_after(written) <==> step.done || (step.frames@.len() > 0 && !written),
        step.frames@.len() > 0 && !written ==> step.ended_after(written),
        step.frames@.len() == 0 ==> step.ended_after(written) == step.done,
        beat.ended_after(written) <==> beat == HeartbeatStep::Dead || !written,
{
}

/// A session is reconciled only when all three of its duties have ended,
/// and the end of any one duty takes a joined session to draining. The
/// order in which the duties end does not matter.
pub proof fn law_session_drains(session: Session, first: Duty, second: Duty, third: Duty)
    requires
        session.state == SessionState::Joined,
        !session.reader_done && !session.forwarder_done && !session.heartbeat_done,
    ensures
        session.after(first).state == SessionState::Draining,
        !session.after(first).due(),
        !session.after(first).after(second).due(),
        session.after(first).after(second).after(third).due() <==> first != second && second
            != third && first != third,
        session.after(first).after(second) == session.after(second).after(first),
{
}

/// A session that is over stays over: no duty that ends afterwards brings
/// it back, and it is never due for reconciliation again. So a session is
/// reconciled at most once. Nor is a session due that has not joined.
pub proof fn law_terminated_session_is_final(session: Session, duty: Duty)
    requires
        session.state == SessionState::Terminated || session.state == SessionState::Handshaking,
    ensures
        session.after(duty) == session,
        !session.due(),
{
}

} // verus!
