//! Laws of the wire format: a snapshot can be read back from its document.

use crate::types::{CarView, PlayerView, RoomView};
use crate::wire::{
    all_of, car_json, car_of_json, car_reader, cars_json, id_reader, ids_json, player_json,
    player_of_json, player_reader, players_json, room_json, room_of_json, sync_json, sync_of_json,
    Json,
};
use vstd::prelude::*;

verus! {

/// The names of the members of the documents on the wire are what they
/// are written as.
proof fn lemma_member_names()
    ensures
        "player_id"@.len() == 9,
        "player_name"@.len() == 11,
        "car_id"@.len() == 6,
        "weather_id"@.len() == 10,
        "background_id"@.len() == 13,
        "skin_id"@.len() == 7,
        "player_ids"@.len() == 10,
        "room_id"@.len() == 7,
        "players"@.len() == 7,
        "cars"@.len() == 4,
        "type"@.len() == 4,
        "room_info"@.len() == 9,
        "weather_id"@[0] == 'w',
        "player_ids"@[0] == 'p',
        "skin_id"@[0] == 's',
        "room_id"@[0] == 'r',
        "players"@[0] == 'p',
{
    reveal_strlit("player_id");
    reveal_strlit("player_name");
    reveal_strlit("car_id");
    reveal_strlit("weather_id");
    reveal_strlit("background_id");
    reveal_strlit("skin_id");
    reveal_strlit("player_ids");
    reveal_strlit("room_id");
    reveal_strlit("players");
    reveal_strlit("cars");
    reveal_strlit("type");
    reveal_strlit("room_info");
}

/// A list of ids reads back from its documents.
proof fn lemma_ids_read_back(ids: Seq<i32>)
    ensures
        all_of(ids_json(ids), id_reader()) == Some(ids),
    decreases ids.len(),
{
    if ids.len() > 0 {
        lemma_ids_read_back(ids.drop_last());
        assert(ids_json(ids).drop_last() == ids_json(ids.drop_last()));
        assert(ids.drop_last().push(ids.last()) == ids);
    }
}

/// A player reads back from their document.
pub proof fn law_player_reads_back(player: PlayerView)
    ensures
        player_of_json(player_json(player)) == Some(player),
{
    lemma_member_names();
}

/// A car reads back from its document.
pub proof fn law_car_reads_back(car: CarView)
    ensures
        car_of_json(car_json(car)) == Some(car),
{
    lemma_member_names();
    lemma_ids_read_back(car.player_ids);
}

/// A list of players reads back from its documents.
proof fn lemma_players_read_back(players: Seq<PlayerView>)
    ensures
        all_of(players_json(players), player_reader()) == Some(players),
    decreases players.len(),
{
    if players.len() > 0 {
        lemma_players_read_back(players.drop_last());
        law_player_reads_back(players.last());
        assert(players_json(players).drop_last() == players_json(players.drop_last()));
        assert(players.drop_last().push(players.last()) == players);
    }
}

/// A list of cars reads back from its documents.
proof fn lemma_cars_read_back(cars: Seq<CarView>)
    ensures
        all_of(cars_json(cars), car_reader()) == Some(cars),
    decreases cars.len(),
{
    if cars.len() > 0 {
        lemma_cars_read_back(cars.drop_last());
        law_car_reads_back(cars.last());
        assert(cars_json(cars).drop_last() == cars_json(cars.drop_last()));
        assert(cars.drop_last().push(cars.last()) == cars);
    }
}

/// The document of a room's snapshot holds the room in all its fields:
/// reading the document gives the room back, and so does reading the
/// synchronisation frame that carries it. (That the text written for a
/// document reads as that document again is left to `serde_json`.)
pub proof fn law_snapshot_reads_back(room: RoomView)
    ensures
        room_of_json(room_json(room)) == Some(room),
        sync_of_json(sync_json(room)) == Some(room),
{
    lemma_member_names();
    lemma_players_read_back(room.players);
    lemma_cars_read_back(room.cars);
    assert(room_of_json(room_json(room)) == Some(room));
    assert(sync_json(room).member("room_info"@) == room_json(room));
    assert(sync_json(room).member("type"@) == Json::Text("sync"@));
}

} // verus!
