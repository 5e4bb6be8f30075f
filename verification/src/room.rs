//! What can happen to a room: a player joins, changes car, a car changes
//! skin, a player leaves. Each operation is a function on [`RoomView`], and
//! the method of [`Room`] that performs it says so in its contract.

use crate::types::{Car, CarView, Player, PlayerView, Room, RoomView};
use vstd::prelude::*;

verus! {

/// The test that keeps every id but `player_id`.
pub open spec fn other_than(player_id: i32) -> spec_fn(i32) -> bool {
    |id: i32| id != player_id
}

/// The change that takes `player_id` out of a car.
pub open spec fn car_without(player_id: i32) -> spec_fn(CarView) -> CarView {
    |car: CarView| car.without(player_id)
}

/// The test that holds of the cars numbered `car_id`.
pub open spec fn numbered(car_id: i32) -> spec_fn(CarView) -> bool {
    |car: CarView| car.car_id == car_id
}

/// The test that holds of the cars numbered `car_id` in which nobody sits.
pub open spec fn vacant(car_id: i32) -> spec_fn(CarView) -> bool {
    |car: CarView| car.car_id == car_id && car.player_ids.len() == 0
}

/// The test that holds of the cars in which `player_id` sits.
pub open spec fn seating(player_id: i32) -> spec_fn(CarView) -> bool {
    |car: CarView| car.seats(player_id)
}

/// Whether some item of a list passes a test.
pub open spec fn any_of<A>(items: Seq<A>, test: spec_fn(A) -> bool) -> bool {
    exists|i: int| 0 <= i < items.len() && test(#[trigger] items[i])
}

/// Whether `i` is the place of the first item of a list that passes a test.
pub open spec fn is_first_of<A>(items: Seq<A>, i: int, test: spec_fn(A) -> bool) -> bool {
    &&& 0 <= i < items.len()
    &&& test(items[i])
    &&& forall|j: int| 0 <= j < i ==> !test(#[trigger] items[j])
}

/// The place of the first item of a list that passes a test, where one does.
pub open spec fn first_of<A>(items: Seq<A>, test: spec_fn(A) -> bool) -> int {
    choose|i: int| is_first_of(items, i, test)
}

/// Whether at most one item of a list passes a test.
pub open spec fn at_most_one<A>(items: Seq<A>, test: spec_fn(A) -> bool) -> bool {
    forall|i: int, j: int|
        0 <= i < items.len() && 0 <= j < items.len() && test(#[trigger] items[i]) && test(
            #[trigger] items[j],
        ) ==> i == j
}

impl CarView {
    /// The car that `player_id` alone sits in.
    pub open spec fn solo(car_id: i32, skin_id: i32, player_id: i32) -> CarView {
        CarView { car_id, skin_id, player_ids: seq![player_id] }
    }

    /// This car with `player_id` taken out, wherever it occurs.
    pub open spec fn without(self, player_id: i32) -> CarView {
        CarView { player_ids: self.player_ids.filter(other_than(player_id)), ..self }
    }

    /// This car with `player_id` as its last occupant.
    pub open spec fn entered(self, player_id: i32) -> CarView {
        CarView { player_ids: self.player_ids.push(player_id), ..self }
    }

    /// How often `player_id` is listed among the occupants of this car.
    pub open spec fn times_seated(self, player_id: i32) -> nat {
        self.player_ids.to_multiset().count(player_id)
    }

    /// This car with the skin `skin_id` if it is numbered `car_id`.
    pub open spec fn reskin(self, car_id: i32, skin_id: i32) -> CarView {
        if self.car_id == car_id {
            CarView { skin_id, ..self }
        } else {
            self
        }
    }

    /// Whether `player_id` sits in this car.
    pub open spec fn seats(self, player_id: i32) -> bool {
        self.player_ids.contains(player_id)
    }
}

impl RoomView {
    /// The room as it is created: no player, no car.
    pub open spec fn empty(room_id: i32, weather_id: i32, background_id: i32) -> RoomView {
        RoomView {
            room_id,
            players: Seq::empty(),
            cars: Seq::empty(),
            weather_id,
            background_id,
        }
    }

    /// The ids of the players, in the order in which they joined.
    pub open spec fn player_ids(self) -> Seq<i32> {
        self.players.map_values(|p: PlayerView| p.player_id)
    }

    /// Whether some player of the room has the id `player_id`.
    pub open spec fn has_player(self, player_id: i32) -> bool {
        exists|i: int| 0 <= i < self.players.len() && self.players[i].player_id == player_id
    }

    /// Whether `i` is the place of the first player with the id `player_id`.
    pub open spec fn is_first_place(self, i: int, player_id: i32) -> bool {
        &&& 0 <= i < self.players.len()
        &&& self.players[i].player_id == player_id
        &&& forall|j: int| 0 <= j < i ==> self.players[j].player_id != player_id
    }

    /// The place of the first player with the id `player_id`, where there is one.
    pub open spec fn first_place(self, player_id: i32) -> int {
        choose|i: int| self.is_first_place(i, player_id)
    }

    /// The room after `player` has joined with a car of skin `skin_id`: the
    /// player comes last, and so does a new car in which the player sits alone.
    pub open spec fn join(self, player: PlayerView, skin_id: i32) -> RoomView {
        RoomView {
            players: self.players.push(player),
            cars: self.cars.push(CarView::solo(player.car_id, skin_id, player.player_id)),
            ..self
        }
    }

    /// The cars of the room with `player_id` taken out of each.
    pub open spec fn cleared(self, player_id: i32) -> Seq<CarView> {
        self.cars.map_values(car_without(player_id))
    }

    /// Whether `player_id` sits in at most one car of the room.
    pub open spec fn seated_at_most_once(self, player_id: i32) -> bool {
        at_most_one(self.cars, seating(player_id))
    }

    /// The room after `player_id` has moved to the car numbered `car_id`:
    /// the id leaves every car, and enters, last, the first car with that
    /// number. Where no car has that number the player ends up in no car.
    pub open spec fn change_car(self, player_id: i32, car_id: i32) -> RoomView {
        let cleared = self.cleared(player_id);
        if any_of(self.cars, numbered(car_id)) {
            let place = first_of(self.cars, numbered(car_id));
            RoomView { cars: cleared.update(place, cleared[place].entered(player_id)), ..self }
        } else {
            RoomView { cars: cleared, ..self }
        }
    }

    /// The room after the cars numbered `car_id` have taken the skin `skin_id`.
    pub open spec fn change_car_skin(self, car_id: i32, skin_id: i32) -> RoomView {
        RoomView { cars: self.cars.map_values(|car: CarView| car.reskin(car_id, skin_id)), ..self }
    }

    /// The room after the player at `place` has left: that entry is gone
    /// from the player list and the player's id is gone from every car.
    /// Then the player's car goes too: the first car with the number that
    /// the player joined with in which nobody sits any more. A car in
    /// which somebody else sits is never dropped.
    pub open spec fn quit_at(self, place: int) -> RoomView {
        let gone = self.players[place];
        let cleared = self.cleared(gone.player_id);
        let cars = if any_of(cleared, vacant(gone.car_id)) {
            cleared.remove(first_of(cleared, vacant(gone.car_id)))
        } else {
            cleared
        };
        RoomView { players: self.players.remove(place), cars, ..self }
    }

    /// The room after `player_id` has left. Of several entries with that id
    /// the first one leaves; a room without such a player stays as it is.
    pub open spec fn quit(self, player_id: i32) -> RoomView {
        if self.has_player(player_id) {
            self.quit_at(self.first_place(player_id))
        } else {
            self
        }
    }
}

/// A room with a player of the id `player_id` has exactly one first place
/// for it, and `first_place` is that place.
pub proof fn lemma_first_place(room: RoomView, player_id: i32)
    requires
        room.has_player(player_id),
    ensures
        room.is_first_place(room.first_place(player_id), player_id),
        forall|i: int| room.is_first_place(i, player_id) ==> i == room.first_place(player_id),
{
    let k = choose|i: int| 0 <= i < room.players.len() && room.players[i].player_id == player_id;
    lemma_first_place_below(room, player_id, k);
    let s = room.first_place(player_id);
    assert forall|i: int| room.is_first_place(i, player_id) implies i == s by {
        if i < s {
            assert(room.players[i].player_id != player_id);
        } else if s < i {
            assert(room.players[s].player_id != player_id);
        }
    }
}

/// A list with an item that passes a test has exactly one first place for
/// such an item, and `first_of` is that place.
pub proof fn lemma_first_of<A>(items: Seq<A>, test: spec_fn(A) -> bool)
    requires
        any_of(items, test),
    ensures
        is_first_of(items, first_of(items, test), test),
        forall|i: int| is_first_of(items, i, test) ==> i == first_of(items, test),
{
    let k = choose|i: int| 0 <= i < items.len() && test(#[trigger] items[i]);
    lemma_first_of_below(items, test, k);
    let f = first_of(items, test);
    assert forall|i: int| is_first_of(items, i, test) implies i == f by {
        if i < f {
            assert(!test(items[i]));
        } else if f < i {
            assert(!test(items[f]));
        }
    }
}

/// Below any place whose item passes the test there is a first one.
proof fn lemma_first_of_below<A>(items: Seq<A>, test: spec_fn(A) -> bool, k: int)
    requires
        0 <= k < items.len(),
        test(items[k]),
    ensures
        exists|i: int| is_first_of(items, i, test),
    decreases k,
{
    if forall|j: int| 0 <= j < k ==> !test(#[trigger] items[j]) {
        assert(is_first_of(items, k, test));
    } else {
        let j = choose|j: int| 0 <= j < k && test(#[trigger] items[j]);
        lemma_first_of_below(items, test, j);
    }
}

/// Leaving a room does not change the room's id or its ambient settings.
pub proof fn lemma_quit_keeps_room_id(room: RoomView, player_id: i32)
    ensures
        room.quit(player_id).room_id == room.room_id,
        room.quit(player_id).weather_id == room.weather_id,
        room.quit(player_id).background_id == room.background_id,
{
}

/// Below any place that holds `player_id` there is a first one.
proof fn lemma_first_place_below(room: RoomView, player_id: i32, k: int)
    requires
        0 <= k < room.players.len(),
        room.players[k].player_id == player_id,
    ensures
        exists|i: int| room.is_first_place(i, player_id),
    decreases k,
{
    if forall|j: int| 0 <= j < k ==> room.players[j].player_id != player_id {
        assert(room.is_first_place(k, player_id));
    } else {
        let j = choose|j: int| 0 <= j < k && room.players[j].player_id == player_id;
        lemma_first_place_below(room, player_id, j);
    }
}


/// The ids of `ids` other than `player_id`, in their order.
fn ids_without(ids: &Vec<i32>, player_id: i32) -> (rest: Vec<i32>)
    ensures
        rest@ == ids@.filter(other_than(player_id)),
{
    let mut rest: Vec<i32> = Vec::new();
    let mut i: usize = 0;
    while i < ids.len()
        invariant
            i <= ids.len(),
            rest@ == ids@.take(i as int).filter(other_than(player_id)),
        decreases ids.len() - i,
    {
        proof {
            let pred = other_than(player_id);
            assert(ids@.take(i + 1) == ids@.take(i as int).push(ids@[i as int]));
            ids@.take(i as int).lemma_filter_push(ids@[i as int], pred);
        }
        if ids[i] != player_id {
            rest.push(ids[i]);
        }
        i += 1;
    }
    proof {
        assert(ids@.take(ids.len() as int) == ids@);
    }
    rest
}

impl Car {
    /// A car in which `player_id` sits alone.
    pub fn solo(car_id: i32, skin_id: i32, player_id: i32) -> (car: Car)
        ensures
            car@ == CarView::solo(car_id, skin_id, player_id),
    {
        let mut player_ids: Vec<i32> = Vec::new();
        player_ids.push(player_id);
        Car { car_id, skin_id, player_ids }
    }

    /// This car with `player_id` taken out.
    pub fn without(&self, player_id: i32) -> (car: Car)
        ensures
            car@ == self@.without(player_id),
    {
        Car {
            car_id: self.car_id,
            skin_id: self.skin_id,
            player_ids: ids_without(&self.player_ids, player_id),
        }
    }

    /// This car with `player_id` as its last occupant.
    pub fn entered(&self, player_id: i32) -> (car: Car)
        ensures
            car@ == self@.entered(player_id),
    {
        let mut car = self.clone();
        car.player_ids.push(player_id);
        car
    }
}

impl Room {
    /// A room without players or cars.
    pub fn new(room_id: i32, weather_id: i32, background_id: i32) -> (room: Room)
        ensures
            room@ == RoomView::empty(room_id, weather_id, background_id),
    {
        Room { room_id, players: Vec::new(), cars: Vec::new(), weather_id, background_id }
    }

    /// Adds `player` to the room, last, with a new car of skin `skin_id` in
    /// which the player sits alone. A player whose id is in the room already
    /// is added all the same.
    pub fn join(&mut self, player: Player, skin_id: i32)
        ensures
            final(self)@ == old(self)@.join(player@, skin_id),
    {
        let car = Car::solo(player.car_id, skin_id, player.player_id);
        self.players.push(player);
        self.cars.push(car);
    }

    /// Moves `player_id` to the car numbered `car_id`: the id leaves every
    /// car and enters, last, the first car with that number. Afterwards the
    /// player sits in at most one car, and once in it. A number that no car
    /// has is no failure: the player then sits in no car.
    pub fn change_car(&mut self, player_id: i32, car_id: i32)
        ensures
            final(self)@ == old(self)@.change_car(player_id, car_id),
            final(self)@.seated_at_most_once(player_id),
            forall|i: int|
                0 <= i < final(self)@.cars.len() ==> (#[trigger] final(self)@.cars[i]).times_seated(
                    player_id,
                ) <= 1,
    {
        let ghost before = self@;
        let ghost cleared = before.cleared(player_id);
        let ghost mut place: int = 0;
        let mut entered = false;
        let mut cars: Vec<Car> = Vec::new();
        let mut i: usize = 0;
        while i < self.cars.len()
            invariant
                i <= self.cars.len(),
                cars.len() == i,
                before == self@,
                cleared == before.cleared(player_id),
                !entered ==> forall|k: int|
                    0 <= k < i ==> !numbered(car_id)(#[trigger] before.cars[k]),
                entered ==> place < i && is_first_of(before.cars, place, numbered(car_id)),
                forall|k: int|
                    0 <= k < i ==> (#[trigger] cars[k])@ == if entered && k == place {
                        cleared[k].entered(player_id)
                    } else {
                        cleared[k]
                    },
            decreases self.cars.len() - i,
        {
            let rest = self.cars[i].without(player_id);
            if !entered && self.cars[i].car_id == car_id {
                cars.push(rest.entered(player_id));
                entered = true;
                proof {
                    place = i as int;
                }
            } else {
                cars.push(rest);
            }
            i += 1;
        }
        self.cars = cars;
        proof {
            if entered {
                assert(numbered(car_id)(before.cars[place]));
                lemma_first_of(before.cars, numbered(car_id));
                assert(self@.cars =~= cleared.update(place, cleared[place].entered(player_id)));
            } else {
                assert(self@.cars =~= cleared);
            }
            lemma_change_car_one_seat(before, player_id, car_id);
        }
    }

    /// Gives the cars numbered `car_id` the skin `skin_id`.
    pub fn change_car_skin(&mut self, car_id: i32, skin_id: i32)
        ensures
            final(self)@ == old(self)@.change_car_skin(car_id, skin_id),
    {
        let mut cars: Vec<Car> = Vec::new();
        let mut i: usize = 0;
        while i < self.cars.len()
            invariant
                i <= self.cars.len(),
                cars.len() == i,
                forall|k: int| 0 <= k < i ==> cars[k]@ == self.cars[k]@.reskin(car_id, skin_id),
            decreases self.cars.len() - i,
        {
            let mut car = self.cars[i].clone();
            if car.car_id == car_id {
                car.skin_id = skin_id;
            }
            cars.push(car);
            i += 1;
        }
        self.cars = cars;
    }

    /// The place of the first player with the id `player_id`.
    pub fn position(&self, player_id: i32) -> (place: Option<usize>)
        ensures
            match place {
                Some(i) => self@.is_first_place(i as int, player_id),
                None => !self@.has_player(player_id),
            },
    {
        let mut i: usize = 0;
        while i < self.players.len()
            invariant
                i <= self.players.len(),
                forall|j: int| 0 <= j < i ==> self@.players[j].player_id != player_id,
            decreases self.players.len() - i,
        {
            if self.players[i].player_id == player_id {
                return Some(i);
            }
            i += 1;
        }
        None
    }

    /// Takes `player_id` out of the room and returns the entry that left:
    /// the first player with that id leaves the list, and the id is taken
    /// out of every car. The player's car goes too: the first car with the
    /// number that the player joined with in which nobody sits any more.
    /// Without such a player nothing changes and the result is `None`.
    pub fn quit(&mut self, player_id: i32) -> (gone: Option<Player>)
        ensures
            final(self)@ == old(self)@.quit(player_id),
            match gone {
                Some(player) => old(self)@.has_player(player_id) && player@ == old(
                    self,
                )@.players[old(self)@.first_place(player_id)],
                None => !old(self)@.has_player(player_id),
            },
    {
        let Some(place) = self.position(player_id) else {
            return None;
        };
        proof {
            assert(self@.has_player(player_id));
            lemma_first_place(self@, player_id);
        }
        let ghost before = self@;
        let ghost cleared = before.cleared(player_id);
        let player = self.players.remove(place);
        let ghost mut dropped_at: int = 0;
        let mut dropped = false;
        let mut cars: Vec<Car> = Vec::new();
        let mut i: usize = 0;
        while i < self.cars.len()
            invariant
                i <= self.cars.len(),
                self.cars@ == old(self).cars@,
                before.cars == self.cars@.map_values(|c: Car| c@),
                cleared == before.cleared(player_id),
                !dropped ==> cars.len() == i && forall|k: int|
                    0 <= k < i ==> !vacant(player.car_id)(#[trigger] cleared[k]),
                dropped ==> cars.len() == i - 1 && dropped_at < i && is_first_of(
                    cleared,
                    dropped_at,
                    vacant(player.car_id),
                ),
                forall|k: int|
                    0 <= k < cars.len() ==> (#[trigger] cars[k])@ == if dropped && k
                        >= dropped_at {
                        cleared[k + 1]
                    } else {
                        cleared[k]
                    },
            decreases self.cars.len() - i,
        {
            let rest = self.cars[i].without(player_id);
            if !dropped && rest.car_id == player.car_id && rest.player_ids.len() == 0 {
                dropped = true;
                proof {
                    dropped_at = i as int;
                }
            } else {
                cars.push(rest);
            }
            i += 1;
        }
        self.cars = cars;
        proof {
            if dropped {
                assert(vacant(player.car_id)(cleared[dropped_at]));
                lemma_first_of(cleared, vacant(player.car_id));
                assert(self@.cars =~= cleared.remove(dropped_at));
            } else {
                assert(self@.cars =~= cleared);
            }
        }
        Some(player)
    }
}

/// Taking an id out of a list leaves a list that does not hold it, and
/// that holds every other id as often as before.
pub proof fn lemma_without(ids: Seq<i32>, player_id: i32, id: i32)
    ensures
        ids.filter(other_than(player_id)).contains(id) <==> ids.contains(id) && id != player_id,
        ids.filter(other_than(player_id)).to_multiset().count(player_id) == 0,
{
    let pred = other_than(player_id);
    let rest = ids.filter(pred);
    if ids.contains(id) && id != player_id {
        let i = choose|i: int| 0 <= i < ids.len() && ids[i] == id;
        assert(pred(ids[i]));
        ids.lemma_filter_contains(pred, i);
    }
    if rest.contains(id) {
        let i = choose|i: int| 0 <= i < rest.len() && rest[i] == id;
        ids.lemma_filter_pred(pred, i);
        ids.lemma_filter_contains_rev(pred, id);
    }
    if rest.contains(player_id) {
        let i = choose|i: int| 0 <= i < rest.len() && rest[i] == player_id;
        ids.lemma_filter_pred(pred, i);
    }
    vstd::seq_lib::to_multiset_contains(rest, player_id);
}

/// After a change of car the player sits in the first car with the new
/// number and in no other, once; and every other player sits where they sat.
pub proof fn lemma_change_car_one_seat(room: RoomView, player_id: i32, car_id: i32)
    ensures
        room.change_car(player_id, car_id).cars.len() == room.cars.len(),
        forall|i: int|
            0 <= i < room.cars.len() ==> ((#[trigger] room.change_car(
                player_id,
                car_id,
            ).cars[i]).seats(player_id) <==> is_first_of(room.cars, i, numbered(car_id))),
        forall|i: int|
            0 <= i < room.cars.len() ==> (#[trigger] room.change_car(
                player_id,
                car_id,
            ).cars[i]).times_seated(player_id) <= 1,
        forall|i: int, other: i32|
            0 <= i < room.cars.len() && other != player_id ==> (#[trigger] room.change_car(
                player_id,
                car_id,
            ).cars[i].seats(other) <==> room.cars[i].seats(other)),
        forall|i: int|
            0 <= i < room.cars.len() ==> (#[trigger] room.change_car(player_id, car_id).cars[i]).car_id
                == room.cars[i].car_id,
        room.change_car(player_id, car_id).seated_at_most_once(player_id),
{
    let after = room.change_car(player_id, car_id);
    let cleared = room.cleared(player_id);
    let found = any_of(room.cars, numbered(car_id));
    let place = first_of(room.cars, numbered(car_id));
    if found {
        lemma_first_of(room.cars, numbered(car_id));
    }
    assert forall|i: int| 0 <= i < room.cars.len() implies ((#[trigger] after.cars[i]).seats(
        player_id,
    ) <==> is_first_of(room.cars, i, numbered(car_id))) && after.cars[i].times_seated(player_id)
        <= 1 && after.cars[i].car_id == room.cars[i].car_id by {
        let rest = room.cars[i].player_ids.filter(other_than(player_id));
        lemma_without(room.cars[i].player_ids, player_id, player_id);
        if found && i == place {
            assert(rest.push(player_id)[rest.len() as int] == player_id);
            vstd::seq_lib::to_multiset_build(rest, player_id);
        } else {
            assert(after.cars[i] == cleared[i]);
            if is_first_of(room.cars, i, numbered(car_id)) {
                assert(numbered(car_id)(room.cars[i]));
            }
        }
    }
    assert forall|i: int, other: i32|
        0 <= i < room.cars.len() && other != player_id implies (#[trigger] after.cars[i].seats(
        other,
    ) <==> room.cars[i].seats(other)) by {
        let rest = room.cars[i].player_ids.filter(other_than(player_id));
        lemma_without(room.cars[i].player_ids, player_id, other);
        if found && i == place {
            if rest.contains(other) {
                let k = choose|k: int| 0 <= k < rest.len() && rest[k] == other;
                assert(rest.push(player_id)[k] == other);
            }
            if rest.push(player_id).contains(other) {
                let k = choose|k: int|
                    0 <= k < rest.push(player_id).len() && rest.push(player_id)[k] == other;
                assert(rest[k] == other);
            }
        }
    }
    assert forall|i: int, j: int|
        0 <= i < after.cars.len() && 0 <= j < after.cars.len() && seating(player_id)(
            #[trigger] after.cars[i],
        ) && seating(player_id)(#[trigger] after.cars[j]) implies i == j by {
        assert(after.cars[i].seats(player_id) && after.cars[j].seats(player_id));
        assert(is_first_of(room.cars, i, numbered(car_id)));
        assert(is_first_of(room.cars, j, numbered(car_id)));
    }
}

} // verus!
