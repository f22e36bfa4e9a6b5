//! Event, user and room identifiers.
//!
//! Whether a string is an identifier is decided by `ruma_identifiers`. A
//! value of one of the types below holds a string that it accepted, kept
//! exactly as it was given.

use vstd::prelude::*;
use vstd::string::StringExecFns;

verus! {

/// Whether `ruma_identifiers::EventId::try_from` accepts the string `s`.
pub uninterp spec fn event_id_valid(s: Seq<char>) -> bool;

/// Whether `ruma_identifiers::UserId::try_from` accepts the string `s`.
pub uninterp spec fn user_id_valid(s: Seq<char>) -> bool;

/// Whether `ruma_identifiers::RoomId::try_from` accepts the string `s`.
pub uninterp spec fn room_id_valid(s: Seq<char>) -> bool;

/// `ruma_identifiers::EventId::try_from` on a string slice: whether it
/// accepts `s`. The answer is named by [`event_id_valid`].
#[verifier::external_body]
pub(crate) fn accepts_event_id(s: &str) -> (ok: bool)
    ensures
        ok == event_id_valid(s@),
{
    ruma_identifiers::EventId::try_from(s).is_ok()
}

/// `ruma_identifiers::UserId::try_from` on a string slice: whether it
/// accepts `s`. The answer is named by [`user_id_valid`].
#[verifier::external_body]
pub(crate) fn accepts_user_id(s: &str) -> (ok: bool)
    ensures
        ok == user_id_valid(s@),
{
    ruma_identifiers::UserId::try_from(s).is_ok()
}

/// `ruma_identifiers::RoomId::try_from` on a string slice: whether it
/// accepts `s`. The answer is named by [`room_id_valid`].
#[verifier::external_body]
pub(crate) fn accepts_room_id(s: &str) -> (ok: bool)
    ensures
        ok == room_id_valid(s@),
{
    ruma_identifiers::RoomId::try_from(s).is_ok()
}

/// The identifier of an event.
#[derive(Clone, Debug, PartialEq, Eq)]
pub struct EventId {
    text: String,
}

/// The identifier of a user.
#[derive(Clone, Debug, PartialEq, Eq)]
pub struct UserId {
    text: String,
}

/// The identifier of a room.
#[derive(Clone, Debug, PartialEq, Eq)]
pub struct RoomId {
    text: String,
}

impl View for EventId {
    type V = Seq<char>;

    closed spec fn view(&self) -> Seq<char> {
        self.text@
    }
}

impl View for UserId {
    type V = Seq<char>;

    closed spec fn view(&self) -> Seq<char> {
        self.text@
    }
}

impl View for RoomId {
    type V = Seq<char>;

    closed spec fn view(&self) -> Seq<char> {
        self.text@
    }
}

impl EventId {
    /// The identifier holds a string that the validation accepts.
    pub open spec fn wf(&self) -> bool {
        event_id_valid(self@)
    }

    /// The identifier that `s` spells, where `s` is an event identifier.
    pub fn parse(s: &str) -> (r: Option<EventId>)
        ensures
            r is Some <==> event_id_valid(s@),
            r is Some ==> r.unwrap()@ == s@ && r.unwrap().wf(),
    {
        if accepts_event_id(s) {
            Some(EventId { text: String::from_str(s) })
        } else {
            None
        }
    }

    /// The string that spells this identifier.
    pub fn as_str(&self) -> (s: &str)
        ensures
            s@ == self@,
    {
        self.text.as_str()
    }
}

impl UserId {
    /// The identifier holds a string that the validation accepts.
    pub open spec fn wf(&self) -> bool {
        user_id_valid(self@)
    }

    /// The identifier that `s` spells, where `s` is a user identifier.
    pub fn parse(s: &str) -> (r: Option<UserId>)
        ensures
            r is Some <==> user_id_valid(s@),
            r is Some ==> r.unwrap()@ == s@ && r.unwrap().wf(),
    {
        if accepts_user_id(s) {
            Some(UserId { text: String::from_str(s) })
        } else {
            None
        }
    }

    /// The string that spells this identifier.
    pub fn as_str(&self) -> (s: &str)
        ensures
            s@ == self@,
    {
        self.text.as_str()
    }
}

impl RoomId {
    /// The identifier holds a string that the validation accepts.
    pub open spec fn wf(&self) -> bool {
        room_id_valid(self@)
    }

    /// The identifier that `s` spells, where `s` is a room identifier.
    pub fn parse(s: &str) -> (r: Option<RoomId>)
        ensures
            r is Some <==> room_id_valid(s@),
            r is Some ==> r.unwrap()@ == s@ && r.unwrap().wf(),
    {
        if accepts_room_id(s) {
            Some(RoomId { text: String::from_str(s) })
        } else {
            None
        }
    }

    /// The string that spells this identifier.
    pub fn as_str(&self) -> (s: &str)
        ensures
            s@ == self@,
    {
        self.text.as_str()
    }
}

} // verus!
