//! The channel table: a concurrent keyed map from room id to the two ends of
//! that room's broadcast channel.

use crate::dto::response::MessageType;
use crate::registry::Kept;
use dashmap::DashMap;
use tokio::sync::broadcast::error::SendError;
use tokio::sync::broadcast::{Receiver, Sender};
use vstd::prelude::*;

verus! {

/// `tokio::sync::broadcast::Sender`, carried as an opaque value.
#[verifier::external_type_specification]
#[verifier::external_body]
#[verifier::reject_recursive_types(T)]
pub struct ExSender<T>(Sender<T>);

/// `tokio::sync::broadcast::Receiver`, carried as an opaque value.
#[verifier::external_type_specification]
#[verifier::external_body]
#[verifier::reject_recursive_types(T)]
pub struct ExReceiver<T>(Receiver<T>);

/// `tokio::sync::broadcast::error::SendError`, carried as an opaque value.
#[verifier::external_type_specification]
#[verifier::external_body]
#[verifier::reject_recursive_types(T)]
pub struct ExSendError<T>(SendError<T>);

/// `Sender::send`: hands a value to the receivers that are alive. It fails
/// when there is none; nothing here says when that is.
pub assume_specification<T>[ Sender::<T>::send ](sender: &Sender<T>, value: T) -> (sent: Result<
    usize,
    SendError<T>,
>)
;

/// `Sender::subscribe`: a new receiver of what is sent from now on.
pub assume_specification<T>[ Sender::<T>::subscribe ](sender: &Sender<T>) -> (receiver: Receiver<T>)
;

/// The capacity that a channel was made with, which is what its maker
/// asked for, whatever room tokio then gave it.
pub uninterp spec fn channel_limit(sender: Sender<MessageType>) -> usize;

/// The rooms for which a channel table holds a channel, each with the
/// capacity that its channel was made with.
pub uninterp spec fn open_channels(
    table: DashMap<i32, (Sender<MessageType>, Receiver<MessageType>)>,
) -> Map<i32, usize>;

impl Kept for (Sender<MessageType>, Receiver<MessageType>) {
    type Shown = usize;

    open spec fn shown(self) -> usize {
        channel_limit(self.0)
    }

    open spec fn held(table: DashMap<i32, (Sender<MessageType>, Receiver<MessageType>)>) -> Map<
        i32,
        usize,
    > {
        open_channels(table)
    }
}

/// `tokio::sync::broadcast::channel`: a channel of the given capacity, as
/// its sending end and its first receiver. The capacity must be positive
/// and at most `usize::MAX / 2`; tokio panics on any other.
#[verifier::external_body]
pub(crate) fn channel_open(capacity: usize) -> (ends: (Sender<MessageType>, Receiver<MessageType>))
    requires
        0 < capacity <= usize::MAX / 2,
    ensures
        channel_limit(ends.0) == capacity,
{
    tokio::sync::broadcast::channel(capacity)
}

/// `DashMap::get`, with the sending end cloned out: a sender of the room's
/// channel, or `None` where the table has no such key.
#[verifier::external_body]
pub(crate) fn channels_sender(
    table: &DashMap<i32, (Sender<MessageType>, Receiver<MessageType>)>,
    room_id: i32,
) -> (found: Option<Sender<MessageType>>)
    ensures
        found is Some <==> open_channels(*table).contains_key(room_id),
{
    table.get(&room_id).map(|entry| entry.value().0.clone())
}

} // verus!
