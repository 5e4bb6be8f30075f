//! Laws of a room: what holds of every room, whatever was done to it.

use crate::room::{
    any_of, first_of, is_first_of, lemma_change_car_one_seat, lemma_first_of, lemma_first_place,
    lemma_without, numbered, other_than, seating, vacant,
};
use crate::types::{PlayerView, RoomView};
use vstd::prelude::*;

verus! {

/// One arrival: the player and the skin of the car that comes with them.
pub struct Arrival {
    pub player: PlayerView,
    pub skin_id: i32,
}

impl RoomView {
    /// The room after the players of `arrivals` have joined, one after another.
    pub open spec fn join_all(self, arrivals: Seq<Arrival>) -> RoomView
        decreases arrivals.len(),
    {
        if arrivals.len() == 0 {
            self
        } else {
            self.join_all(arrivals.drop_last()).join(
                arrivals.last().player,
                arrivals.last().skin_id,
            )
        }
    }

    /// Whether `player_id` sits in some car of the room.
    pub open spec fn seated(self, player_id: i32) -> bool {
        any_of(self.cars, seating(player_id))
    }

    /// Whether no player sits in two cars of the room at once.
    pub open spec fn one_seat_each(self) -> bool {
        forall|player_id: i32| self.seated_at_most_once(player_id)
    }
}

/// The players of `arrivals`, in their order.
pub open spec fn arrived_players(arrivals: Seq<Arrival>) -> Seq<PlayerView> {
    arrivals.map_values(|a: Arrival| a.player)
}

/// The ids of the players of `arrivals`, in their order.
pub open spec fn arrived_ids(arrivals: Seq<Arrival>) -> Seq<i32> {
    arrivals.map_values(|a: Arrival| a.player.player_id)
}

/// After any sequence of joins the player list is the old list followed by
/// the players that joined, in the order of their joining; nothing else of
/// the room but its cars has changed, and there is one more car per join.
pub proof fn law_joins_extend_player_list(room: RoomView, arrivals: Seq<Arrival>)
    ensures
        room.join_all(arrivals).players == room.players + arrived_players(arrivals),
        room.join_all(arrivals).player_ids() == room.player_ids() + arrived_ids(arrivals),
        room.join_all(arrivals).cars.len() == room.cars.len() + arrivals.len(),
        room.join_all(arrivals).room_id == room.room_id,
        room.join_all(arrivals).weather_id == room.weather_id,
        room.join_all(arrivals).background_id == room.background_id,
    decreases arrivals.len(),
{
    if arrivals.len() == 0 {
        assert(room.players + arrived_players(arrivals) == room.players);
        assert(room.player_ids() + arrived_ids(arrivals) == room.player_ids());
    } else {
        let earlier = arrivals.drop_last();
        law_joins_extend_player_list(room, earlier);
        let after = room.join_all(arrivals);
        assert(after.players == room.players + arrived_players(arrivals));
        assert(after.player_ids() == room.player_ids() + arrived_ids(arrivals));
    }
}

/// After N joins into a room that had no player, the player list has exactly
/// N entries, and their ids are the ids that joined, in that order. Where no
/// id joined twice, no id occurs twice in the list.
pub proof fn law_joins_into_empty_room(room: RoomView, arrivals: Seq<Arrival>)
    requires
        room.players.len() == 0,
    ensures
        room.join_all(arrivals).players.len() == arrivals.len(),
        room.join_all(arrivals).player_ids() == arrived_ids(arrivals),
        arrived_ids(arrivals).no_duplicates() ==> room.join_all(
            arrivals,
        ).player_ids().no_duplicates(),
        forall|id: i32|
            room.join_all(arrivals).has_player(id) <==> arrived_ids(arrivals).contains(id),
{
    law_joins_extend_player_list(room, arrivals);
    let after = room.join_all(arrivals);
    assert(room.player_ids() + arrived_ids(arrivals) == arrived_ids(arrivals));
    assert forall|id: i32| after.has_player(id) <==> arrived_ids(arrivals).contains(id) by {
        if after.has_player(id) {
            let i = choose|i: int| 0 <= i < after.players.len() && after.players[i].player_id == id;
            assert(after.player_ids()[i] == id);
        }
        if arrived_ids(arrivals).contains(id) {
            let i = choose|i: int|
                0 <= i < arrived_ids(arrivals).len() && arrived_ids(arrivals)[i] == id;
            assert(after.player_ids()[i] == id);
            assert(after.players[i].player_id == id);
        }
    }
}

/// Taking an id out of a list that has just received it, last, gives the
/// list without that id; and taking it out twice is taking it out once.
proof fn lemma_without_after_push(ids: Seq<i32>, player_id: i32)
    ensures
        ids.filter(other_than(player_id)).push(player_id).filter(other_than(player_id))
            == ids.filter(other_than(player_id)),
        ids.filter(other_than(player_id)).filter(other_than(player_id)) == ids.filter(
            other_than(player_id),
        ),
{
    let pred = other_than(player_id);
    let rest = ids.filter(pred);
    rest.lemma_filter_push(player_id, pred);
    lemma_filter_twice(ids, player_id);
}

/// Taking an id out twice is taking it out once.
proof fn lemma_filter_twice(ids: Seq<i32>, player_id: i32)
    ensures
        ids.filter(other_than(player_id)).filter(other_than(player_id)) == ids.filter(
            other_than(player_id),
        ),
    decreases ids.len(),
{
    let pred = other_than(player_id);
    reveal(Seq::filter);
    if ids.len() > 0 {
        lemma_filter_twice(ids.drop_last(), player_id);
        if pred(ids.last()) {
            ids.drop_last().filter(pred).lemma_filter_push(ids.last(), pred);
        }
    }
}

/// A second change of car makes the first one void: moving a player to one
/// car and then to another leaves the room as if the player had moved to the
/// second car at once.
pub proof fn law_change_car_absorbs(room: RoomView, player_id: i32, first: i32, second: i32)
    ensures
        room.change_car(player_id, first).change_car(player_id, second) == room.change_car(
            player_id,
            second,
        ),
{
    let moved = room.change_car(player_id, first);
    let twice = moved.change_car(player_id, second);
    let once = room.change_car(player_id, second);
    lemma_change_car_one_seat(room, player_id, first);
    if any_of(room.cars, numbered(first)) {
        lemma_first_of(room.cars, numbered(first));
    }
    assert forall|i: int| 0 <= i < room.cars.len() implies numbered(second)(
        #[trigger] moved.cars[i],
    ) == numbered(second)(room.cars[i]) && moved.cleared(player_id)[i] == room.cleared(
        player_id,
    )[i] by {
        lemma_without_after_push(room.cars[i].player_ids, player_id);
        let cleared = room.cleared(player_id);
        if any_of(room.cars, numbered(first)) && i == first_of(room.cars, numbered(first)) {
            assert(moved.cars[i] == cleared[i].entered(player_id));
        } else {
            assert(moved.cars[i] == cleared[i]);
        }
        assert(moved.cleared(player_id)[i] == moved.cars[i].without(player_id));
        assert(moved.cars[i].without(player_id).player_ids == cleared[i].player_ids);
    }
    assert(moved.cleared(player_id) =~= room.cleared(player_id));
    if any_of(room.cars, numbered(second)) {
        lemma_first_of(room.cars, numbered(second));
        let place = first_of(room.cars, numbered(second));
        assert(numbered(second)(moved.cars[place]));
        assert(is_first_of(moved.cars, place, numbered(second))) by {
            assert forall|j: int| 0 <= j < place implies !numbered(second)(
                #[trigger] moved.cars[j],
            ) by {
                assert(!numbered(second)(room.cars[j]));
            }
        }
        lemma_first_of(moved.cars, numbered(second));
    } else {
        if any_of(moved.cars, numbered(second)) {
            let k = choose|k: int|
                0 <= k < moved.cars.len() && numbered(second)(#[trigger] moved.cars[k]);
            assert(numbered(second)(room.cars[k]));
        }
    }
}

/// However the cars of a room are numbered, a player who has changed car
/// sits in at most one car, the first with the new number, and is listed
/// there once; every other player sits where they sat. So a room in which
/// no player sat in two cars stays such a room.
pub proof fn law_change_car_one_seat(room: RoomView, player_id: i32, car_id: i32)
    ensures
        room.change_car(player_id, car_id).seated_at_most_once(player_id),
        forall|i: int|
            0 <= i < room.cars.len() ==> (#[trigger] room.change_car(
                player_id,
                car_id,
            ).cars[i]).times_seated(player_id) <= 1,
        forall|i: int|
            0 <= i < room.cars.len() ==> ((#[trigger] room.change_car(
                player_id,
                car_id,
            ).cars[i]).seats(player_id) <==> is_first_of(room.cars, i, numbered(car_id))),
        forall|i: int, other: i32|
            0 <= i < room.cars.len() && other != player_id ==> (#[trigger] room.change_car(
                player_id,
                car_id,
            ).cars[i].seats(other) <==> room.cars[i].seats(other)),
        forall|other: i32|
            room.seated_at_most_once(other) ==> room.change_car(
                player_id,
                car_id,
            ).seated_at_most_once(other),
        room.one_seat_each() ==> room.change_car(player_id, car_id).one_seat_each(),
        room.change_car(player_id, car_id).players == room.players,
{
    lemma_change_car_one_seat(room, player_id, car_id);
    let after = room.change_car(player_id, car_id);
    assert forall|other: i32| room.seated_at_most_once(other) implies after.seated_at_most_once(
        other,
    ) by {
        if other != player_id {
            assert forall|i: int, j: int|
                0 <= i < after.cars.len() && 0 <= j < after.cars.len() && seating(other)(
                    #[trigger] after.cars[i],
                ) && seating(other)(#[trigger] after.cars[j]) implies i == j by {
                assert(after.cars[i].seats(other) && after.cars[j].seats(other));
                assert(seating(other)(room.cars[i]));
                assert(seating(other)(room.cars[j]));
            }
        }
    }
}

/// A player who joins with an id that sits in no car of the room sits in
/// one car afterwards, the new one, and nobody else's seat has changed: a
/// room in which no player sat in two cars stays such a room.
pub proof fn law_join_keeps_one_seat(room: RoomView, player: PlayerView, skin_id: i32)
    requires
        room.one_seat_each(),
        !room.seated(player.player_id),
    ensures
        room.join(player, skin_id).one_seat_each(),
        room.join(player, skin_id).seated(player.player_id),
{
    let after = room.join(player, skin_id);
    let last = room.cars.len() as int;
    assert(after.cars[last].player_ids[0] == player.player_id);
    assert(after.cars[last].seats(player.player_id));
    assert forall|id: i32| after.seated_at_most_once(id) by {
        assert forall|i: int, j: int|
            0 <= i < after.cars.len() && 0 <= j < after.cars.len() && seating(id)(
                #[trigger] after.cars[i],
            ) && seating(id)(#[trigger] after.cars[j]) implies i == j by {
            if id == player.player_id {
                if i < last {
                    assert(room.cars[i].seats(id));
                }
                if j < last {
                    assert(room.cars[j].seats(id));
                }
            } else {
                if i == last {
                    let k = choose|k: int|
                        0 <= k < after.cars[last].player_ids.len()
                            && after.cars[last].player_ids[k] == id;
                    assert(false);
                }
                if j == last {
                    let k = choose|k: int|
                        0 <= k < after.cars[last].player_ids.len()
                            && after.cars[last].player_ids[k] == id;
                    assert(false);
                }
                assert(room.seated_at_most_once(id));
                assert(seating(id)(room.cars[i]) && seating(id)(room.cars[j]));
            }
        }
    }
}

/// A change of skin moves nobody: a room in which no player sat in two
/// cars stays such a room.
pub proof fn law_change_car_skin_keeps_seats(room: RoomView, car_id: i32, skin_id: i32)
    ensures
        forall|i: int|
            0 <= i < room.cars.len() ==> (#[trigger] room.change_car_skin(
                car_id,
                skin_id,
            ).cars[i]).player_ids == room.cars[i].player_ids,
        room.change_car_skin(car_id, skin_id).players == room.players,
        room.one_seat_each() ==> room.change_car_skin(car_id, skin_id).one_seat_each(),
{
    let after = room.change_car_skin(car_id, skin_id);
    if room.one_seat_each() {
        assert forall|id: i32| after.seated_at_most_once(id) by {
            assert(room.seated_at_most_once(id));
            assert forall|i: int, j: int|
                0 <= i < after.cars.len() && 0 <= j < after.cars.len() && seating(id)(
                    #[trigger] after.cars[i],
                ) && seating(id)(#[trigger] after.cars[j]) implies i == j by {
                assert(seating(id)(room.cars[i]) && seating(id)(room.cars[j]));
            }
        }
    }
}

/// A player who leaves takes exactly one entry out of the player list, the
/// first with the player's id: the entries before it stay in place, those
/// behind it move up by one, and no other player is lost. Where no id
/// occurred twice, the player is then out of the room.
pub proof fn law_quit_removes_one_entry(room: RoomView, player_id: i32)
    requires
        room.has_player(player_id),
    ensures
        room.is_first_place(room.first_place(player_id), player_id),
        room.quit(player_id).players == room.players.remove(room.first_place(player_id)),
        room.quit(player_id).players.len() == room.players.len() - 1,
        forall|i: int|
            0 <= i < room.first_place(player_id) ==> room.quit(player_id).players[i]
                == room.players[i],
        forall|i: int|
            room.first_place(player_id) <= i < room.players.len() - 1 ==> room.quit(
                player_id,
            ).players[i] == room.players[i + 1],
        forall|other: i32|
            other != player_id ==> (room.quit(player_id).has_player(other) <==> room.has_player(
                other,
            )),
        room.player_ids().no_duplicates() ==> !room.quit(player_id).has_player(player_id),
        room.quit(player_id).room_id == room.room_id,
{
    lemma_first_place(room, player_id);
    let place = room.first_place(player_id);
    let after = room.quit(player_id);
    assert forall|other: i32| other != player_id implies (after.has_player(other)
        <==> room.has_player(other)) by {
        if after.has_player(other) {
            let i = choose|i: int| 0 <= i < after.players.len() && after.players[i].player_id == other;
            if i < place {
                assert(room.players[i].player_id == other);
            } else {
                assert(room.players[i + 1].player_id == other);
            }
        }
        if room.has_player(other) {
            let i = choose|i: int| 0 <= i < room.players.len() && room.players[i].player_id == other;
            if i < place {
                assert(after.players[i].player_id == other);
            } else {
                assert(after.players[i - 1].player_id == other);
            }
        }
    }
    if room.player_ids().no_duplicates() && after.has_player(player_id) {
        let i = choose|i: int| 0 <= i < after.players.len() && after.players[i].player_id == player_id;
        let j = if i < place {
            i
        } else {
            i + 1
        };
        assert(room.player_ids()[j] == player_id);
        assert(room.player_ids()[place] == player_id);
    }
}

/// A player who leaves sits in no car of the room afterwards, and takes
/// nobody else's seat along: every other player sits in a car afterwards
/// exactly if they did before, and a room in which no player sat in two
/// cars stays such a room.
pub proof fn law_quit_clears_seats(room: RoomView, player_id: i32)
    requires
        room.has_player(player_id),
    ensures
        !room.quit(player_id).seated(player_id),
        forall|other: i32|
            other != player_id ==> (room.quit(player_id).seated(other) <==> room.seated(other)),
        forall|other: i32|
            room.seated_at_most_once(other) ==> room.quit(player_id).seated_at_most_once(other),
        room.one_seat_each() ==> room.quit(player_id).one_seat_each(),
        room.cars.len() - 1 <= room.quit(player_id).cars.len() <= room.cars.len(),
{
    lemma_first_place(room, player_id);
    let gone = room.players[room.first_place(player_id)];
    let cleared = room.cleared(player_id);
    let after = room.quit(player_id);
    let dropping = any_of(cleared, vacant(gone.car_id));
    let at = first_of(cleared, vacant(gone.car_id));
    if dropping {
        lemma_first_of(cleared, vacant(gone.car_id));
    }
    // Where a car of the room after stood before.
    let back = |k: int|
        if dropping && k >= at {
            k + 1
        } else {
            k
        };
    assert forall|k: int| 0 <= k < after.cars.len() implies 0 <= back(k) < room.cars.len()
        && #[trigger] after.cars[k] == cleared[back(k)] by {}
    assert forall|k: int, id: i32| 0 <= k < room.cars.len() implies (#[trigger] cleared[k].seats(
        id,
    ) <==> room.cars[k].seats(id) && id != player_id) by {
        lemma_without(room.cars[k].player_ids, player_id, id);
    }
    if after.seated(player_id) {
        let k = choose|k: int|
            0 <= k < after.cars.len() && seating(player_id)(#[trigger] after.cars[k]);
        assert(cleared[back(k)].seats(player_id));
        assert(false);
    }
    assert forall|other: i32| other != player_id implies (after.seated(other) <==> room.seated(
        other,
    )) by {
        if after.seated(other) {
            let k = choose|k: int|
                0 <= k < after.cars.len() && seating(other)(#[trigger] after.cars[k]);
            assert(cleared[back(k)].seats(other));
            assert(seating(other)(room.cars[back(k)]));
        }
        if room.seated(other) {
            let k = choose|k: int|
                0 <= k < room.cars.len() && seating(other)(#[trigger] room.cars[k]);
            assert(cleared[k].seats(other));
            if dropping && k == at {
                assert(cleared[k].player_ids.len() == 0);
                assert(false);
            }
            let forth = if dropping && k > at {
                k - 1
            } else {
                k
            };
            assert(after.cars[forth] == cleared[k]);
            assert(seating(other)(after.cars[forth]));
        }
    }
    assert forall|other: i32| room.seated_at_most_once(other) implies after.seated_at_most_once(
        other,
    ) by {
        assert forall|i: int, j: int|
            0 <= i < after.cars.len() && 0 <= j < after.cars.len() && seating(other)(
                #[trigger] after.cars[i],
            ) && seating(other)(#[trigger] after.cars[j]) implies i == j by {
            assert(cleared[back(i)].seats(other) && cleared[back(j)].seats(other));
            assert(seating(other)(room.cars[back(i)]) && seating(other)(room.cars[back(j)]));
        }
    }
}

/// No step on a room seats a player in a second car: a room in which no
/// player sits in two cars stays such a room when a player joins whose id
/// sits in no car, when a player changes car, when a car changes skin, and
/// when a player leaves. The empty room is such a room.
pub proof fn law_one_seat_each_is_kept(
    room: RoomView,
    player: PlayerView,
    player_id: i32,
    car_id: i32,
    skin_id: i32,
)
    requires
        room.one_seat_each(),
    ensures
        RoomView::empty(room.room_id, room.weather_id, room.background_id).one_seat_each(),
        !room.seated(player.player_id) ==> room.join(player, skin_id).one_seat_each(),
        room.change_car(player_id, car_id).one_seat_each(),
        room.change_car_skin(car_id, skin_id).one_seat_each(),
        room.quit(player_id).one_seat_each(),
{
    let empty = RoomView::empty(room.room_id, room.weather_id, room.background_id);
    assert forall|id: i32| empty.seated_at_most_once(id) by {}
    if !room.seated(player.player_id) {
        law_join_keeps_one_seat(room, player, skin_id);
    }
    law_change_car_one_seat(room, player_id, car_id);
    law_change_car_skin_keeps_seats(room, car_id, skin_id);
    if room.has_player(player_id) {
        law_quit_clears_seats(room, player_id);
    }
}

/// Where no id is listed twice among the players, a player who leaves is
/// gone altogether: no entry of the player list has the id, and no car
/// lists it as an occupant.
pub proof fn law_quit_leaves_no_trace(room: RoomView, player_id: i32)
    requires
        room.has_player(player_id),
        room.player_ids().no_duplicates(),
    ensures
        !room.quit(player_id).has_player(player_id),
        !room.quit(player_id).seated(player_id),
        room.quit(player_id).player_ids().no_duplicates(),
{
    law_quit_removes_one_entry(room, player_id);
    law_quit_clears_seats(room, player_id);
    let after = room.quit(player_id);
    let place = room.first_place(player_id);
    assert forall|i: int, j: int|
        0 <= i < after.player_ids().len() && 0 <= j < after.player_ids().len() && i
            != j implies after.player_ids()[i] != after.player_ids()[j] by {
        let bi = if i < place {
            i
        } else {
            i + 1
        };
        let bj = if j < place {
            j
        } else {
            j + 1
        };
        assert(after.player_ids()[i] == room.player_ids()[bi]);
        assert(after.player_ids()[j] == room.player_ids()[bj]);
    }
}

} // verus!
