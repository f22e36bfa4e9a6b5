//! The state event itself.

use vstd::prelude::*;
use crate::identifiers::{event_id_valid, room_id_valid, user_id_valid, EventId, RoomId, UserId};
use crate::timestamp::Timestamp;
use crate::unsigned::{unsigned_wf, UnsignedData};

verus! {

/// A state event: an overwritable fact about a room, with content of type
/// `C`.
#[derive(Clone, Debug, PartialEq, Eq)]
pub struct StateEvent<C> {
    /// Data specific to the event type.
    pub content: C,
    /// The identifier of the event.
    pub event_id: EventId,
    /// The user who sent the event.
    pub sender: UserId,
    /// When the originating server sent the event.
    pub origin_server_ts: Timestamp,
    /// The room that the event belongs to.
    pub room_id: RoomId,
    /// The key that, with the event type and the room, says which piece of
    /// room state the event overwrites. Often empty.
    pub state_key: String,
    /// The content that this event replaced, where the server included it.
    pub prev_content: Option<C>,
    /// Data that the signature of the event does not cover.
    pub unsigned: UnsignedData,
}

/// What a [`StateEvent`] holds: the content values as they are, the rest as
/// plain values.
pub struct StateEventView<C> {
    pub content: C,
    pub event_id: Seq<char>,
    pub sender: Seq<char>,
    /// Nanoseconds from the epoch.
    pub origin_server_ts: int,
    pub room_id: Seq<char>,
    pub state_key: Seq<char>,
    pub prev_content: Option<C>,
    /// The JSON text of the side channel, `None` where it has no members.
    pub unsigned: Option<Seq<char>>,
}

impl<C> View for StateEvent<C> {
    type V = StateEventView<C>;

    open spec fn view(&self) -> StateEventView<C> {
        StateEventView {
            content: self.content,
            event_id: self.event_id@,
            sender: self.sender@,
            origin_server_ts: self.origin_server_ts@,
            room_id: self.room_id@,
            state_key: self.state_key@,
            prev_content: self.prev_content,
            unsigned: self.unsigned@,
        }
    }
}

impl<C> StateEventView<C> {
    /// The identifiers are valid and the side channel is well formed.
    pub open spec fn wf(self) -> bool {
        &&& event_id_valid(self.event_id)
        &&& user_id_valid(self.sender)
        &&& room_id_valid(self.room_id)
        &&& unsigned_wf(self.unsigned)
    }
}

impl<C> StateEvent<C> {
    /// The identifiers are valid and the side channel is well formed.
    pub open spec fn wf(&self) -> bool {
        self@.wf()
    }
}

} // verus!
