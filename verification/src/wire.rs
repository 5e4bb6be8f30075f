//! The wire format: JSON text frames, read and written with `serde_json`.
//!
//! A document is modelled by [`Json`]. What `serde_json` does is stated over
//! that model; which text a document has, and which document a text, is
//! left to `serde_json` and only named here.

use crate::dto::response::{MessageResponse, MessageResponseView, MessageType, MessageTypeView};
use crate::types::{Car, CarView, Player, PlayerView, Room, RoomView};
use serde_json::Value;
use vstd::prelude::*;
use vstd::string::StringExecFns;

verus! {

/// A JSON document.
pub enum Json {
    Null,
    Bool(bool),
    /// A number that is held as an integer.
    Int(int),
    /// A number that is held as a float, by the bits of that float.
    Real(u64),
    Text(Seq<char>),
    List(Seq<Json>),
    Object(Map<Seq<char>, Json>),
}

impl Json {
    /// The member `key` of an object; `Null` where this is no object or
    /// has no such member.
    pub open spec fn member(self, key: Seq<char>) -> Json {
        match self {
            Json::Object(fields) => if fields.contains_key(key) {
                fields[key]
            } else {
                Json::Null
            },
            _ => Json::Null,
        }
    }

    /// The number, where this is an integer that fits 64 bits with sign.
    pub open spec fn as_i64(self) -> Option<i64> {
        match self {
            Json::Int(n) => if i64::MIN <= n <= i64::MAX {
                Some(n as i64)
            } else {
                None
            },
            _ => None,
        }
    }

    /// The number, where this is an integer that fits 32 bits with sign.
    pub open spec fn as_i32(self) -> Option<i32> {
        match self {
            Json::Int(n) => if i32::MIN <= n <= i32::MAX {
                Some(n as i32)
            } else {
                None
            },
            _ => None,
        }
    }

    /// The text, where this is a string.
    pub open spec fn as_text(self) -> Option<Seq<char>> {
        match self {
            Json::Text(text) => Some(text),
            _ => None,
        }
    }

    /// The items, where this is a list.
    pub open spec fn as_list(self) -> Option<Seq<Json>> {
        match self {
            Json::List(items) => Some(items),
            _ => None,
        }
    }

    /// The object without members.
    pub open spec fn empty_object() -> Json {
        Json::Object(Map::empty())
    }

    /// This object with `value` as its member `key`.
    pub open spec fn with(self, key: Seq<char>, value: Json) -> Json {
        match self {
            Json::Object(fields) => Json::Object(fields.insert(key, value)),
            _ => self,
        }
    }
}

/// `serde_json::Value`, carried as an opaque value.
#[verifier::external_type_specification]
#[verifier::external_body]
pub struct ExValue(Value);

/// `serde_json::Error`, carried as an opaque value.
#[verifier::external_type_specification]
#[verifier::external_body]
pub struct ExJsonError(serde_json::Error);

/// The document that a `serde_json::Value` holds.
pub uninterp spec fn json_tree(value: Value) -> Json;

/// The document that `serde_json` reads from a text; `None` for a text that
/// it refuses.
pub uninterp spec fn json_parsed(text: Seq<char>) -> Option<Json>;

/// The text that `serde_json` writes for a document.
pub uninterp spec fn json_rendered(doc: Json) -> Seq<char>;

/// The documents that a list of values holds, in order.
pub open spec fn json_trees(values: Seq<Value>) -> Seq<Json> {
    values.map_values(|value: Value| json_tree(value))
}

/// `serde_json::from_str` to a `Value`: the document of the text, or an
/// error for a text that is no JSON document. Like `json_render`, this is
/// stated of `serde_json` without `preserve_order` and `arbitrary_precision`.
#[verifier::external_body]
fn json_parse(text: &str) -> (parsed: Result<Value, serde_json::Error>)
    ensures
        match parsed {
            Ok(value) => json_parsed(text@) == Some(json_tree(value)),
            Err(_) => json_parsed(text@) is None,
        },
{
    serde_json::from_str::<Value>(text)
}

/// Indexing a `Value` by a string: the member under the key, and `Null`
/// where the value is no object or has no such member.
#[verifier::external_body]
fn json_member<'a>(value: &'a Value, key: &str) -> (member: &'a Value)
    ensures
        json_tree(*member) == json_tree(*value).member(key@),
{
    &value[key]
}

/// `Value::as_i64`: the number, where the value is an integer that fits.
#[verifier::external_body]
fn json_as_i64(value: &Value) -> (number: Option<i64>)
    ensures
        number == json_tree(*value).as_i64(),
{
    value.as_i64()
}

/// `Value::as_str`, copied out: the text, where the value is a string.
#[verifier::external_body]
fn json_as_string(value: &Value) -> (text: Option<String>)
    ensures
        match text {
            Some(text) => json_tree(*value).as_text() == Some(text@),
            None => json_tree(*value).as_text() is None,
        },
{
    value.as_str().map(|text| text.to_string())
}

/// `Value::as_array`: the items, where the value is a list.
#[verifier::external_body]
fn json_as_array<'a>(value: &'a Value) -> (items: Option<&'a Vec<Value>>)
    ensures
        match items {
            Some(items) => json_tree(*value).as_list() == Some(json_trees(items@)),
            None => json_tree(*value).as_list() is None,
        },
{
    value.as_array()
}

/// `Value::from` of an integer: that number.
#[verifier::external_body]
fn json_int(number: i64) -> (value: Value)
    ensures
        json_tree(value) == Json::Int(number as int),
{
    Value::from(number)
}

/// `Value::from` of a string slice: that string.
#[verifier::external_body]
fn json_text(text: &str) -> (value: Value)
    ensures
        json_tree(value) == Json::Text(text@),
{
    Value::from(text)
}

/// `Value::from` of a vector of values: the list of them, in order.
#[verifier::external_body]
fn json_list(items: Vec<Value>) -> (value: Value)
    ensures
        json_tree(value) == Json::List(json_trees(items@)),
{
    Value::from(items)
}

/// `Value::Object` of `Map::new`: the object without members.
#[verifier::external_body]
fn json_object() -> (value: Value)
    ensures
        json_tree(value) == Json::empty_object(),
{
    Value::Object(serde_json::Map::new())
}

/// Assigning to a `Value` indexed by a string: the object gets the member,
/// in the place of one that it had under the key. `serde_json` panics
/// where the value is neither an object nor `Null`.
#[verifier::external_body]
fn json_set(object: &mut Value, key: &str, member: Value)
    requires
        json_tree(*old(object)) is Object,
    ensures
        json_tree(*final(object)) == json_tree(*old(object)).with(key@, json_tree(member)),
{
    object[key] = member;
}

/// `Value::to_string`: the text of the document. With the map that
/// `serde_json` uses by default an object is written by its keys in order,
/// so that the text depends on the document alone. This holds of
/// `serde_json` as this crate builds it: with its feature `preserve_order`
/// an object would be written in the order in which its members came, and
/// with `arbitrary_precision` a number would not be held as modelled here.
/// Neither may be switched on, by this crate or by a dependency of it.
#[verifier::external_body]
fn json_render(value: &Value) -> (text: String)
    ensures
        text@ == json_rendered(json_tree(*value)),
{
    value.to_string()
}

/// What a [`ChatFrame`] is, as plain values.
#[verifier::ext_equal]
pub struct ChatFrameView {
    pub player_id: i32,
    pub content: Seq<char>,
    pub mes_type: Seq<char>,
}

/// The three members of an inbound text frame.
#[derive(Debug, PartialEq, Eq)]
pub struct ChatFrame {
    pub player_id: i32,
    pub content: String,
    pub mes_type: String,
}

impl View for ChatFrame {
    type V = ChatFrameView;

    open spec fn view(&self) -> ChatFrameView {
        ChatFrameView {
            player_id: self.player_id,
            content: self.content@,
            mes_type: self.mes_type@,
        }
    }
}

/// The chat frame in a document: its members `player_id`, an integer of
/// 32 bits, `content` and `mes_type`, both strings. A document that lacks
/// one of them, or has it in another type, or an id that does not fit,
/// holds no frame.
pub open spec fn chat_frame_of(doc: Json) -> Option<ChatFrameView> {
    match (
        doc.member("player_id"@).as_i32(),
        doc.member("content"@).as_text(),
        doc.member("mes_type"@).as_text(),
    ) {
        (Some(player_id), Some(content), Some(mes_type)) => Some(
            ChatFrameView { player_id, content, mes_type },
        ),
        _ => None,
    }
}

/// The chat frame in a text: that of its document, if it has one.
pub open spec fn chat_frame_of_text(text: Seq<char>) -> Option<ChatFrameView> {
    match json_parsed(text) {
        Some(doc) => chat_frame_of(doc),
        None => None,
    }
}

/// The event that a chat frame asks to publish: a chat line for the kind
/// `text`, an emoji for the kind `emoji`, nothing for any other kind. The
/// event carries the frame's player id and content.
pub open spec fn chat_event_of(frame: ChatFrameView) -> Option<MessageTypeView> {
    let said = MessageResponseView { player_id: frame.player_id, content: frame.content };
    if frame.mes_type == "text"@ {
        Some(MessageTypeView::Text(said))
    } else if frame.mes_type == "emoji"@ {
        Some(MessageTypeView::Emoji(said))
    } else {
        None
    }
}

/// The event that an inbound text asks to publish, if any.
pub open spec fn inbound_event_of(text: Seq<char>) -> Option<MessageTypeView> {
    match chat_frame_of_text(text) {
        Some(frame) => chat_event_of(frame),
        None => None,
    }
}

/// Reads the chat frame of a document.
pub fn chat_frame(doc: &Value) -> (frame: Option<ChatFrame>)
    ensures
        match frame {
            Some(frame) => chat_frame_of(json_tree(*doc)) == Some(frame@),
            None => chat_frame_of(json_tree(*doc)) is None,
        },
{
    let Some(player_id) = read_i32(json_member(doc, "player_id")) else {
        return None;
    };
    let Some(content) = json_as_string(json_member(doc, "content")) else {
        return None;
    };
    let Some(mes_type) = json_as_string(json_member(doc, "mes_type")) else {
        return None;
    };
    Some(ChatFrame { player_id, content, mes_type })
}

/// Reads an inbound text frame. The result is `None` for a text that is no
/// JSON document, and for a document that holds no chat frame.
pub fn parse_chat(text: &str) -> (frame: Option<ChatFrame>)
    ensures
        match frame {
            Some(frame) => chat_frame_of_text(text@) == Some(frame@),
            None => chat_frame_of_text(text@) is None,
        },
{
    match json_parse(text) {
        Ok(doc) => chat_frame(&doc),
        Err(_) => None,
    }
}

/// The event that a chat frame asks to publish, if any.
pub fn chat_event(frame: ChatFrame) -> (event: Option<MessageType>)
    ensures
        match event {
            Some(event) => chat_event_of(frame@) == Some(event@),
            None => chat_event_of(frame@) is None,
        },
{
    let is_text = frame.mes_type == String::from_str("text");
    let is_emoji = frame.mes_type == String::from_str("emoji");
    let said = MessageResponse { player_id: frame.player_id, content: frame.content };
    if is_text {
        Some(MessageType::Text(said))
    } else if is_emoji {
        Some(MessageType::Emoji(said))
    } else {
        None
    }
}

/// The documents of a list of ids, in order.
pub open spec fn ids_json(ids: Seq<i32>) -> Seq<Json> {
    ids.map_values(|id: i32| Json::Int(id as int))
}

/// The document of a player: an object of the player's five fields.
pub open spec fn player_json(player: PlayerView) -> Json {
    Json::empty_object().with("player_id"@, Json::Int(player.player_id as int)).with(
        "player_name"@,
        Json::Text(player.player_name),
    ).with("car_id"@, Json::Int(player.car_id as int)).with(
        "weather_id"@,
        Json::Int(player.weather_id as int),
    ).with("background_id"@, Json::Int(player.background_id as int))
}

/// The document of a car: an object of the car's number, its skin and the
/// list of its occupants.
pub open spec fn car_json(car: CarView) -> Json {
    Json::empty_object().with("car_id"@, Json::Int(car.car_id as int)).with(
        "skin_id"@,
        Json::Int(car.skin_id as int),
    ).with("player_ids"@, Json::List(ids_json(car.player_ids)))
}

/// The documents of a list of players, in order.
pub open spec fn players_json(players: Seq<PlayerView>) -> Seq<Json> {
    players.map_values(|player: PlayerView| player_json(player))
}

/// The documents of a list of cars, in order.
pub open spec fn cars_json(cars: Seq<CarView>) -> Seq<Json> {
    cars.map_values(|car: CarView| car_json(car))
}

/// The document of a room: an object of the room's id, the list of its
/// players, the list of its cars and its two ambient settings.
pub open spec fn room_json(room: RoomView) -> Json {
    Json::empty_object().with("room_id"@, Json::Int(room.room_id as int)).with(
        "players"@,
        Json::List(players_json(room.players)),
    ).with("cars"@, Json::List(cars_json(room.cars))).with(
        "weather_id"@,
        Json::Int(room.weather_id as int),
    ).with("background_id"@, Json::Int(room.background_id as int))
}

/// The document of what a player said, tagged with its kind.
pub open spec fn chat_json(kind: Seq<char>, said: MessageResponseView) -> Json {
    Json::empty_object().with("type"@, Json::Text(kind)).with(
        "player_id"@,
        Json::Int(said.player_id as int),
    ).with("content"@, Json::Text(said.content))
}

/// The document of a room's snapshot, tagged as a synchronisation.
pub open spec fn sync_json(room: RoomView) -> Json {
    Json::empty_object().with("type"@, Json::Text("sync"@)).with("room_info"@, room_json(room))
}

/// The document that a connection is sent first: the room's snapshot, with
/// no tag.
pub open spec fn welcome_json(room: RoomView) -> Json {
    Json::empty_object().with("room_info"@, room_json(room))
}

/// The document that goes out for an event. A notice of quitting has none:
/// it is never forwarded.
pub open spec fn event_json(event: MessageTypeView) -> Option<Json> {
    match event {
        MessageTypeView::Text(said) => Some(chat_json("text"@, said)),
        MessageTypeView::Emoji(said) => Some(chat_json("emoji"@, said)),
        MessageTypeView::Sync(room) => Some(sync_json(room)),
        MessageTypeView::Quit(_, _) => None,
    }
}

/// Builds the document of a player.
fn player_value(player: &Player) -> (value: Value)
    ensures
        json_tree(value) == player_json(player@),
{
    let mut value = json_object();
    json_set(&mut value, "player_id", json_int(player.player_id as i64));
    json_set(&mut value, "player_name", json_text(player.player_name.as_str()));
    json_set(&mut value, "car_id", json_int(player.car_id as i64));
    json_set(&mut value, "weather_id", json_int(player.weather_id as i64));
    json_set(&mut value, "background_id", json_int(player.background_id as i64));
    value
}

/// Builds the document of a car.
fn car_value(car: &Car) -> (value: Value)
    ensures
        json_tree(value) == car_json(car@),
{
    let mut ids: Vec<Value> = Vec::new();
    let mut i: usize = 0;
    while i < car.player_ids.len()
        invariant
            i <= car.player_ids.len(),
            ids.len() == i,
            forall|k: int| 0 <= k < i ==> json_tree(ids[k]) == Json::Int(car.player_ids[k] as int),
        decreases car.player_ids.len() - i,
    {
        ids.push(json_int(car.player_ids[i] as i64));
        i += 1;
    }
    assert(json_trees(ids@) == ids_json(car@.player_ids));
    let mut value = json_object();
    json_set(&mut value, "car_id", json_int(car.car_id as i64));
    json_set(&mut value, "skin_id", json_int(car.skin_id as i64));
    json_set(&mut value, "player_ids", json_list(ids));
    value
}

/// Builds the document of a room.
fn room_value(room: &Room) -> (value: Value)
    ensures
        json_tree(value) == room_json(room@),
{
    let mut players: Vec<Value> = Vec::new();
    let mut i: usize = 0;
    while i < room.players.len()
        invariant
            i <= room.players.len(),
            players.len() == i,
            forall|k: int| 0 <= k < i ==> json_tree(players[k]) == player_json(room.players[k]@),
        decreases room.players.len() - i,
    {
        players.push(player_value(&room.players[i]));
        i += 1;
    }
    assert(json_trees(players@) == players_json(room@.players));
    let mut cars: Vec<Value> = Vec::new();
    let mut j: usize = 0;
    while j < room.cars.len()
        invariant
            j <= room.cars.len(),
            cars.len() == j,
            forall|k: int| 0 <= k < j ==> json_tree(cars[k]) == car_json(room.cars[k]@),
        decreases room.cars.len() - j,
    {
        cars.push(car_value(&room.cars[j]));
        j += 1;
    }
    assert(json_trees(cars@) == cars_json(room@.cars));
    let mut value = json_object();
    json_set(&mut value, "room_id", json_int(room.room_id as i64));
    json_set(&mut value, "players", json_list(players));
    json_set(&mut value, "cars", json_list(cars));
    json_set(&mut value, "weather_id", json_int(room.weather_id as i64));
    json_set(&mut value, "background_id", json_int(room.background_id as i64));
    value
}

/// Builds the document of what a player said.
fn chat_value(kind: &str, said: &MessageResponse) -> (value: Value)
    ensures
        json_tree(value) == chat_json(kind@, said@),
{
    let mut value = json_object();
    json_set(&mut value, "type", json_text(kind));
    json_set(&mut value, "player_id", json_int(said.player_id as i64));
    json_set(&mut value, "content", json_text(said.content.as_str()));
    value
}

/// The text frame that a connection is sent first: the room's snapshot.
pub fn encode_welcome(room: &Room) -> (text: String)
    ensures
        text@ == json_rendered(welcome_json(room@)),
{
    let mut value = json_object();
    json_set(&mut value, "room_info", room_value(room));
    json_render(&value)
}

/// The text frame that carries a room's snapshot, tagged as a
/// synchronisation.
pub fn encode_sync(room: &Room) -> (text: String)
    ensures
        text@ == json_rendered(sync_json(room@)),
{
    let mut value = json_object();
    json_set(&mut value, "type", json_text("sync"));
    json_set(&mut value, "room_info", room_value(room));
    json_render(&value)
}

/// The text frame that goes out for an event; `None` for a notice of
/// quitting, which has no frame.
pub fn encode_event(event: &MessageType) -> (text: Option<String>)
    ensures
        match text {
            Some(text) => event_json(event@) is Some && text@ == json_rendered(
                event_json(event@)->0,
            ),
            None => event_json(event@) is None,
        },
{
    match event {
        MessageType::Text(said) => Some(json_render(&chat_value("text", said))),
        MessageType::Emoji(said) => Some(json_render(&chat_value("emoji", said))),
        MessageType::Sync(room) => Some(encode_sync(room)),
        MessageType::Quit(_, _) => None,
    }
}

/// What a list of documents reads as, item by item: the list of what the
/// items read as, or nothing where one of them reads as nothing.
pub open spec fn all_of<T>(items: Seq<Json>, read: spec_fn(Json) -> Option<T>) -> Option<Seq<T>>
    decreases items.len(),
{
    if items.len() == 0 {
        Some(Seq::empty())
    } else {
        match (all_of(items.drop_last(), read), read(items.last())) {
            (Some(earlier), Some(last)) => Some(earlier.push(last)),
            _ => None,
        }
    }
}

/// Reading an id: an integer of 32 bits.
pub open spec fn id_reader() -> spec_fn(Json) -> Option<i32> {
    |doc: Json| doc.as_i32()
}

/// Reading a player.
pub open spec fn player_reader() -> spec_fn(Json) -> Option<PlayerView> {
    |doc: Json| player_of_json(doc)
}

/// Reading a car.
pub open spec fn car_reader() -> spec_fn(Json) -> Option<CarView> {
    |doc: Json| car_of_json(doc)
}

/// What a member reads as where it must be a list: its items, read one by one.
pub open spec fn list_of<T>(doc: Json, read: spec_fn(Json) -> Option<T>) -> Option<Seq<T>> {
    match doc.as_list() {
        Some(items) => all_of(items, read),
        None => None,
    }
}

/// The player that a document holds: the five members of a player, each
/// in its type.
pub open spec fn player_of_json(doc: Json) -> Option<PlayerView> {
    match (
        doc.member("player_id"@).as_i32(),
        doc.member("player_name"@).as_text(),
        doc.member("car_id"@).as_i32(),
        doc.member("weather_id"@).as_i32(),
        doc.member("background_id"@).as_i32(),
    ) {
        (
            Some(player_id),
            Some(player_name),
            Some(car_id),
            Some(weather_id),
            Some(background_id),
        ) => Some(PlayerView { player_id, player_name, car_id, weather_id, background_id }),
        _ => None,
    }
}

/// The car that a document holds.
pub open spec fn car_of_json(doc: Json) -> Option<CarView> {
    match (
        doc.member("car_id"@).as_i32(),
        doc.member("skin_id"@).as_i32(),
        list_of(doc.member("player_ids"@), id_reader()),
    ) {
        (Some(car_id), Some(skin_id), Some(player_ids)) => Some(
            CarView { car_id, skin_id, player_ids },
        ),
        _ => None,
    }
}

/// The room that a document holds.
pub open spec fn room_of_json(doc: Json) -> Option<RoomView> {
    match (
        doc.member("room_id"@).as_i32(),
        list_of(doc.member("players"@), player_reader()),
        list_of(doc.member("cars"@), car_reader()),
        doc.member("weather_id"@).as_i32(),
        doc.member("background_id"@).as_i32(),
    ) {
        (Some(room_id), Some(players), Some(cars), Some(weather_id), Some(background_id)) => Some(
            RoomView { room_id, players, cars, weather_id, background_id },
        ),
        _ => None,
    }
}

/// The snapshot that a synchronisation frame carries: the room under
/// `room_info` of a document tagged `sync`.
pub open spec fn sync_of_json(doc: Json) -> Option<RoomView> {
    if doc.member("type"@).as_text() == Some("sync"@) {
        room_of_json(doc.member("room_info"@))
    } else {
        None
    }
}

/// The snapshot that a text carries as a synchronisation frame.
pub open spec fn sync_of_text(text: Seq<char>) -> Option<RoomView> {
    match json_parsed(text) {
        Some(doc) => sync_of_json(doc),
        None => None,
    }
}

/// Reads an integer of 32 bits.
fn read_i32(value: &Value) -> (number: Option<i32>)
    ensures
        number == json_tree(*value).as_i32(),
{
    match json_as_i64(value) {
        Some(n) => if -2147483648 <= n && n <= 2147483647 {
            Some(n as i32)
        } else {
            None
        },
        None => None,
    }
}

/// Reads a list of ids.
fn read_ids(value: &Value) -> (ids: Option<Vec<i32>>)
    ensures
        match ids {
            Some(ids) => list_of(json_tree(*value), id_reader()) == Some(ids@),
            None => list_of(json_tree(*value), id_reader()) is None,
        },
{
    let Some(items) = json_as_array(value) else {
        return None;
    };
    let ghost docs = json_trees(items@);
    let mut ids: Vec<i32> = Vec::new();
    let mut i: usize = 0;
    while i < items.len()
        invariant
            i <= items.len(),
            docs == json_trees(items@),
            json_tree(*value).as_list() == Some(docs),
            all_of(docs.take(i as int), id_reader()) == Some(ids@),
        decreases items.len() - i,
    {
        proof {
            assert(docs.take(i + 1).drop_last() == docs.take(i as int));
            assert(docs.take(i + 1).last() == json_tree(items[i as int]));
        }
        match read_i32(&items[i]) {
            Some(id) => {
                ids.push(id);
            },
            None => {
                proof {
                    lemma_all_of_fails(docs, id_reader(), i + 1);
                }
                return None;
            },
        }
        i += 1;
    }
    proof {
        assert(docs.take(items.len() as int) == docs);
    }
    Some(ids)
}

/// A list of which a beginning reads as nothing reads as nothing.
proof fn lemma_all_of_fails<T>(items: Seq<Json>, read: spec_fn(Json) -> Option<T>, k: int)
    requires
        0 <= k <= items.len(),
        all_of(items.take(k), read) is None,
    ensures
        all_of(items, read) is None,
    decreases items.len() - k,
{
    if k == items.len() {
        assert(items.take(k) == items);
    } else {
        assert(items.take(k + 1).drop_last() == items.take(k));
        lemma_all_of_fails(items, read, k + 1);
    }
}

/// Reads a player.
fn read_player(value: &Value) -> (player: Option<Player>)
    ensures
        match player {
            Some(player) => player_of_json(json_tree(*value)) == Some(player@),
            None => player_of_json(json_tree(*value)) is None,
        },
{
    let Some(player_id) = read_i32(json_member(value, "player_id")) else {
        return None;
    };
    let Some(player_name) = json_as_string(json_member(value, "player_name")) else {
        return None;
    };
    let Some(car_id) = read_i32(json_member(value, "car_id")) else {
        return None;
    };
    let Some(weather_id) = read_i32(json_member(value, "weather_id")) else {
        return None;
    };
    let Some(background_id) = read_i32(json_member(value, "background_id")) else {
        return None;
    };
    Some(Player { player_id, player_name, car_id, weather_id, background_id })
}

/// Reads a car.
fn read_car(value: &Value) -> (car: Option<Car>)
    ensures
        match car {
            Some(car) => car_of_json(json_tree(*value)) == Some(car@),
            None => car_of_json(json_tree(*value)) is None,
        },
{
    let Some(car_id) = read_i32(json_member(value, "car_id")) else {
        return None;
    };
    let Some(skin_id) = read_i32(json_member(value, "skin_id")) else {
        return None;
    };
    let Some(player_ids) = read_ids(json_member(value, "player_ids")) else {
        return None;
    };
    Some(Car { car_id, skin_id, player_ids })
}

/// Reads a list of players.
fn read_players(value: &Value) -> (players: Option<Vec<Player>>)
    ensures
        match players {
            Some(players) => list_of(json_tree(*value), player_reader()) == Some(
                players@.map_values(|p: Player| p@),
            ),
            None => list_of(json_tree(*value), player_reader()) is None,
        },
{
    let Some(items) = json_as_array(value) else {
        return None;
    };
    let ghost docs = json_trees(items@);
    let mut players: Vec<Player> = Vec::new();
    let mut i: usize = 0;
    proof {
        assert(players@.map_values(|p: Player| p@) == Seq::<PlayerView>::empty());
    }
    while i < items.len()
        invariant
            i <= items.len(),
            docs == json_trees(items@),
            json_tree(*value).as_list() == Some(docs),
            all_of(docs.take(i as int), player_reader()) == Some(
                players@.map_values(|p: Player| p@),
            ),
        decreases items.len() - i,
    {
        proof {
            assert(docs.take(i + 1).drop_last() == docs.take(i as int));
            assert(docs.take(i + 1).last() == json_tree(items[i as int]));
        }
        let ghost earlier = players@.map_values(|p: Player| p@);
        match read_player(&items[i]) {
            Some(player) => {
                players.push(player);
                assert(players@.map_values(|p: Player| p@) == earlier.push(player@));
            },
            None => {
                proof {
                    lemma_all_of_fails(docs, player_reader(), i + 1);
                }
                return None;
            },
        }
        i += 1;
    }
    proof {
        assert(docs.take(items.len() as int) == docs);
    }
    Some(players)
}

/// Reads a list of cars.
fn read_cars(value: &Value) -> (cars: Option<Vec<Car>>)
    ensures
        match cars {
            Some(cars) => list_of(json_tree(*value), car_reader()) == Some(
                cars@.map_values(|c: Car| c@),
            ),
            None => list_of(json_tree(*value), car_reader()) is None,
        },
{
    let Some(items) = json_as_array(value) else {
        return None;
    };
    let ghost docs = json_trees(items@);
    let mut cars: Vec<Car> = Vec::new();
    let mut i: usize = 0;
    proof {
        assert(cars@.map_values(|c: Car| c@) == Seq::<CarView>::empty());
    }
    while i < items.len()
        invariant
            i <= items.len(),
            docs == json_trees(items@),
            json_tree(*value).as_list() == Some(docs),
            all_of(docs.take(i as int), car_reader()) == Some(cars@.map_values(|c: Car| c@)),
        decreases items.len() - i,
    {
        proof {
            assert(docs.take(i + 1).drop_last() == docs.take(i as int));
            assert(docs.take(i + 1).last() == json_tree(items[i as int]));
        }
        let ghost earlier = cars@.map_values(|c: Car| c@);
        match read_car(&items[i]) {
            Some(car) => {
                cars.push(car);
                assert(cars@.map_values(|c: Car| c@) == earlier.push(car@));
            },
            None => {
                proof {
                    lemma_all_of_fails(docs, car_reader(), i + 1);
                }
                return None;
            },
        }
        i += 1;
    }
    proof {
        assert(docs.take(items.len() as int) == docs);
    }
    Some(cars)
}

/// Reads the room that a document holds.
pub fn read_room(doc: &Value) -> (room: Option<Room>)
    ensures
        match room {
            Some(room) => room_of_json(json_tree(*doc)) == Some(room@),
            None => room_of_json(json_tree(*doc)) is None,
        },
{
    let Some(room_id) = read_i32(json_member(doc, "room_id")) else {
        return None;
    };
    let Some(players) = read_players(json_member(doc, "players")) else {
        return None;
    };
    let Some(cars) = read_cars(json_member(doc, "cars")) else {
        return None;
    };
    let Some(weather_id) = read_i32(json_member(doc, "weather_id")) else {
        return None;
    };
    let Some(background_id) = read_i32(json_member(doc, "background_id")) else {
        return None;
    };
    Some(Room { room_id, players, cars, weather_id, background_id })
}

/// Reads the snapshot that a text carries as a synchronisation frame. The
/// result is `None` for a text that is no JSON document, for a document
/// that is not tagged `sync`, and for one whose `room_info` is no room.
pub fn decode_sync(text: &str) -> (room: Option<Room>)
    ensures
        match room {
            Some(room) => sync_of_text(text@) == Some(room@),
            None => sync_of_text(text@) is None,
        },
{
    let doc = match json_parse(text) {
        Ok(doc) => doc,
        Err(_) => {
            return None;
        },
    };
    let Some(tag) = json_as_string(json_member(&doc, "type")) else {
        return None;
    };
    if tag != String::from_str("sync") {
        return None;
    }
    read_room(json_member(&doc, "room_info"))
}

} // verus!
