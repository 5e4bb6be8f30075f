//! The events that a room's channel carries to every subscriber.

use crate::types::{Room, RoomView};
use vstd::prelude::*;

verus! {

/// What a [`MessageResponse`] is, as plain values.
#[verifier::ext_equal]
pub struct MessageResponseView {
    pub player_id: i32,
    pub content: Seq<char>,
}

/// What a [`MessageType`] is, as plain values.
#[verifier::ext_equal]
pub enum MessageTypeView {
    Text(MessageResponseView),
    Emoji(MessageResponseView),
    Sync(RoomView),
    Quit(i32, i32),
}

/// What a player said: who, and what.
#[derive(Debug, PartialEq, Eq)]
pub struct MessageResponse {
    pub player_id: i32,
    pub content: String,
}

/// An event of a room: a chat line, an emoji, the room's new snapshot, or
/// the notice that a player (first field) quits a room (second field).
#[derive(Debug, PartialEq, Eq)]
pub enum MessageType {
    Text(MessageResponse),
    Emoji(MessageResponse),
    Sync(Room),
    Quit(i32, i32),
}

impl View for MessageResponse {
    type V = MessageResponseView;

    open spec fn view(&self) -> MessageResponseView {
        MessageResponseView { player_id: self.player_id, content: self.content@ }
    }
}

impl View for MessageType {
    type V = MessageTypeView;

    open spec fn view(&self) -> MessageTypeView {
        match self {
            MessageType::Text(said) => MessageTypeView::Text(said@),
            MessageType::Emoji(said) => MessageTypeView::Emoji(said@),
            MessageType::Sync(room) => MessageTypeView::Sync(room@),
            MessageType::Quit(player_id, room_id) => MessageTypeView::Quit(*player_id, *room_id),
        }
    }
}

impl Clone for MessageResponse {
    fn clone(&self) -> (copy: MessageResponse)
        ensures
            copy@ == self@,
    {
        MessageResponse { player_id: self.player_id, content: self.content.clone() }
    }
}

impl Clone for MessageType {
    fn clone(&self) -> (copy: MessageType)
        ensures
            copy@ == self@,
    {
        match self {
            MessageType::Text(said) => MessageType::Text(said.clone()),
            MessageType::Emoji(said) => MessageType::Emoji(said.clone()),
            MessageType::Sync(room) => MessageType::Sync(room.clone()),
            MessageType::Quit(player_id, room_id) => MessageType::Quit(*player_id, *room_id),
        }
    }
}

} // verus!
