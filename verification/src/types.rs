//! The room snapshot: a room, its players and its cars, with the
//! mathematical view that the contracts of this crate speak of.

use vstd::prelude::*;

verus! {

/// What a [`Player`] is, as plain values.
#[verifier::ext_equal]
pub struct PlayerView {
    pub player_id: i32,
    pub player_name: Seq<char>,
    pub car_id: i32,
    pub weather_id: i32,
    pub background_id: i32,
}

/// What a [`Car`] is: its skin and who sits in it, in the order of arrival.
#[verifier::ext_equal]
pub struct CarView {
    pub car_id: i32,
    pub skin_id: i32,
    pub player_ids: Seq<i32>,
}

/// What a [`Room`] is: players in the order in which they joined, and cars in
/// the order in which they were brought in.
#[verifier::ext_equal]
pub struct RoomView {
    pub room_id: i32,
    pub players: Seq<PlayerView>,
    pub cars: Seq<CarView>,
    pub weather_id: i32,
    pub background_id: i32,
}

/// One occupant of a room.
#[derive(Debug, PartialEq, Eq)]
pub struct Player {
    pub player_id: i32,
    pub player_name: String,
    pub car_id: i32,
    pub weather_id: i32,
    pub background_id: i32,
}

/// A car of a room and the players assigned to it.
#[derive(Debug, PartialEq, Eq)]
pub struct Car {
    pub car_id: i32,
    pub skin_id: i32,
    pub player_ids: Vec<i32>,
}

/// The snapshot of one room. The room's id is the player id of its host.
#[derive(Debug, PartialEq, Eq)]
pub struct Room {
    pub room_id: i32,
    pub players: Vec<Player>,
    pub cars: Vec<Car>,
    pub weather_id: i32,
    pub background_id: i32,
}

impl View for Player {
    type V = PlayerView;

    open spec fn view(&self) -> PlayerView {
        PlayerView {
            player_id: self.player_id,
            player_name: self.player_name@,
            car_id: self.car_id,
            weather_id: self.weather_id,
            background_id: self.background_id,
        }
    }
}

impl View for Car {
    type V = CarView;

    open spec fn view(&self) -> CarView {
        CarView { car_id: self.car_id, skin_id: self.skin_id, player_ids: self.player_ids@ }
    }
}

impl View for Room {
    type V = RoomView;

    open spec fn view(&self) -> RoomView {
        RoomView {
            room_id: self.room_id,
            players: self.players@.map_values(|p: Player| p@),
            cars: self.cars@.map_values(|c: Car| c@),
            weather_id: self.weather_id,
            background_id: self.background_id,
        }
    }
}

impl Clone for Player {
    fn clone(&self) -> (copy: Player)
        ensures
            copy@ == self@,
    {
        Player {
            player_id: self.player_id,
            player_name: self.player_name.clone(),
            car_id: self.car_id,
            weather_id: self.weather_id,
            background_id: self.background_id,
        }
    }
}

impl Clone for Car {
    fn clone(&self) -> (copy: Car)
        ensures
            copy@ == self@,
    {
        let mut ids: Vec<i32> = Vec::new();
        let mut i: usize = 0;
        while i < self.player_ids.len()
            invariant
                i <= self.player_ids.len(),
                ids@ == self.player_ids@.take(i as int),
            decreases self.player_ids.len() - i,
        {
            ids.push(self.player_ids[i]);
            i += 1;
        }
        Car { car_id: self.car_id, skin_id: self.skin_id, player_ids: ids }
    }
}

impl Clone for Room {
    fn clone(&self) -> (copy: Room)
        ensures
            copy@ == self@,
    {
        let mut players: Vec<Player> = Vec::new();
        let mut i: usize = 0;
        while i < self.players.len()
            invariant
                i <= self.players.len(),
                players.len() == i,
                forall|k: int| 0 <= k < i ==> players[k]@ == self.players[k]@,
            decreases self.players.len() - i,
        {
            players.push(self.players[i].clone());
            i += 1;
        }
        let mut cars: Vec<Car> = Vec::new();
        let mut j: usize = 0;
        while j < self.cars.len()
            invariant
                j <= self.cars.len(),
                cars.len() == j,
                forall|k: int| 0 <= k < j ==> cars[k]@ == self.cars[k]@,
            decreases self.cars.len() - j,
        {
            cars.push(self.cars[j].clone());
            j += 1;
        }
        Room {
            room_id: self.room_id,
            players,
            cars,
            weather_id: self.weather_id,
            background_id: self.background_id,
        }
    }
}

} // verus!
