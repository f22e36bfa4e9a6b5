//! Decoding: from the members of a wire object to a state event.
//!
//! The members are walked once, in the order in which they arrive. The
//! payloads are kept as text, since the discriminator that says how to read
//! them may come later. Every other recognised member is read at once into a
//! slot of its own. When the walk is over the payloads are resolved and the
//! slots are checked for completeness.

use vstd::prelude::*;
use crate::content::StateEventContent;
use crate::error::{ContentError, DecodeError, DecodeErrorView};
use crate::field::{wire_view, Field, WireField, WireFieldView};
use crate::identifiers::{event_id_valid, room_id_valid, user_id_valid, EventId, RoomId, UserId};
use crate::json::{json_string, json_uint, opt_str_view, read_string, read_uint};
use crate::state::{StateEvent, StateEventView};
use crate::timestamp::{safe_uint_from_u128, Timestamp, MAX_SAFE_UINT};
use crate::unsigned::{unsigned_of_json, unsigned_wf, UnsignedData};

verus! {

/// What the walk has recorded: one slot for each recognised member, empty
/// until the member has been seen.
#[derive(Clone, Debug, PartialEq, Eq)]
pub struct Slots {
    /// The discriminator.
    pub event_type: Option<String>,
    /// The JSON text of the payload, not yet read.
    pub content: Option<String>,
    pub event_id: Option<EventId>,
    pub sender: Option<UserId>,
    /// Milliseconds since the epoch, not yet checked against the range of
    /// the wire integer.
    pub origin_server_ts: Option<u128>,
    pub room_id: Option<RoomId>,
    pub state_key: Option<String>,
    /// The JSON text of the previous payload, not yet read.
    pub prev_content: Option<String>,
    pub unsigned: Option<UnsignedData>,
}

/// What [`Slots`] hold, as plain values.
pub struct SlotsView {
    pub event_type: Option<Seq<char>>,
    pub content: Option<Seq<char>>,
    pub event_id: Option<Seq<char>>,
    pub sender: Option<Seq<char>>,
    pub origin_server_ts: Option<u128>,
    pub room_id: Option<Seq<char>>,
    pub state_key: Option<Seq<char>>,
    pub prev_content: Option<Seq<char>>,
    pub unsigned: Option<Option<Seq<char>>>,
}

impl View for Slots {
    type V = SlotsView;

    open spec fn view(&self) -> SlotsView {
        SlotsView {
            event_type: opt_str_view(self.event_type),
            content: opt_str_view(self.content),
            event_id: match self.event_id {
                Some(id) => Some(id@),
                None => None,
            },
            sender: match self.sender {
                Some(id) => Some(id@),
                None => None,
            },
            origin_server_ts: self.origin_server_ts,
            room_id: match self.room_id {
                Some(id) => Some(id@),
                None => None,
            },
            state_key: opt_str_view(self.state_key),
            prev_content: opt_str_view(self.prev_content),
            unsigned: match self.unsigned {
                Some(data) => Some(data@),
                None => None,
            },
        }
    }
}

impl SlotsView {
    /// The slots before the walk: all empty.
    pub open spec fn empty() -> SlotsView {
        SlotsView {
            event_type: None,
            content: None,
            event_id: None,
            sender: None,
            origin_server_ts: None,
            room_id: None,
            state_key: None,
            prev_content: None,
            unsigned: None,
        }
    }

    /// Whether the slot of `field` holds a value.
    pub open spec fn filled(self, field: Field) -> bool {
        match field {
            Field::Type => self.event_type is Some,
            Field::Content => self.content is Some,
            Field::EventId => self.event_id is Some,
            Field::Sender => self.sender is Some,
            Field::OriginServerTs => self.origin_server_ts is Some,
            Field::RoomId => self.room_id is Some,
            Field::StateKey => self.state_key is Some,
            Field::PrevContent => self.prev_content is Some,
            Field::Unsigned => self.unsigned is Some,
        }
    }

    /// What the walk records: identifiers that are valid and side-channel
    /// data that is well formed.
    pub open spec fn wf(self) -> bool {
        &&& self.event_id is Some ==> event_id_valid(self.event_id.unwrap())
        &&& self.sender is Some ==> user_id_valid(self.sender.unwrap())
        &&& self.room_id is Some ==> room_id_valid(self.room_id.unwrap())
        &&& self.unsigned is Some ==> unsigned_wf(self.unsigned.unwrap())
    }
}

impl Slots {
    /// The identifiers are valid and the side-channel data is well formed.
    pub open spec fn wf(&self) -> bool {
        self@.wf()
    }

    /// The slots before the walk: all empty.
    pub fn new() -> (slots: Slots)
        ensures
            slots@ == SlotsView::empty(),
            slots.wf(),
    {
        Slots {
            event_type: None,
            content: None,
            event_id: None,
            sender: None,
            origin_server_ts: None,
            room_id: None,
            state_key: None,
            prev_content: None,
            unsigned: None,
        }
    }

    /// What is handed to the content type once the walk is over: the
    /// discriminator, the text of the payload, and the text of the previous
    /// payload where the wire object held one. `None` where the
    /// discriminator or the payload never appeared.
    pub fn payloads(&self) -> (r: Option<(&str, &str, Option<&str>)>)
        ensures
            r is None <==> self@.event_type is None || self@.content is None,
            r is Some ==> {
                &&& self@.event_type == Some(r.unwrap().0@)
                &&& self@.content == Some(r.unwrap().1@)
                &&& r.unwrap().2 is Some <==> self@.prev_content is Some
                &&& r.unwrap().2 is Some ==> self@.prev_content == Some(r.unwrap().2.unwrap()@)
            },
    {
        match (&self.event_type, &self.content) {
            (Some(event_type), Some(raw)) => {
                let prev = match &self.prev_content {
                    Some(prev_raw) => Some(prev_raw.as_str()),
                    None => None,
                };
                Some((event_type.as_str(), raw.as_str(), prev))
            },
            _ => None,
        }
    }

    /// Whether the slot of `field` holds a value.
    pub fn is_filled(&self, field: Field) -> (filled: bool)
        ensures
            filled == self@.filled(field),
    {
        match field {
            Field::Type => self.event_type.is_some(),
            Field::Content => self.content.is_some(),
            Field::EventId => self.event_id.is_some(),
            Field::Sender => self.sender.is_some(),
            Field::OriginServerTs => self.origin_server_ts.is_some(),
            Field::RoomId => self.room_id.is_some(),
            Field::StateKey => self.state_key.is_some(),
            Field::PrevContent => self.prev_content.is_some(),
            Field::Unsigned => self.unsigned.is_some(),
        }
    }
}

/// The slots after the value `raw` has been read into the slot of `field`,
/// or the error where the value has no reading in the type of the member.
/// The payloads are stored as they are.
pub open spec fn store_spec(slots: SlotsView, field: Field, raw: Seq<char>) -> Result<
    SlotsView,
    DecodeErrorView,
> {
    match field {
        Field::Type => match json_string(raw) {
            Some(s) => Ok(SlotsView { event_type: Some(s), ..slots }),
            None => Err(DecodeErrorView::InvalidField(field)),
        },
        Field::Content => Ok(SlotsView { content: Some(raw), ..slots }),
        Field::EventId => match json_string(raw) {
            Some(s) => if event_id_valid(s) {
                Ok(SlotsView { event_id: Some(s), ..slots })
            } else {
                Err(DecodeErrorView::InvalidField(field))
            },
            None => Err(DecodeErrorView::InvalidField(field)),
        },
        Field::Sender => match json_string(raw) {
            Some(s) => if user_id_valid(s) {
                Ok(SlotsView { sender: Some(s), ..slots })
            } else {
                Err(DecodeErrorView::InvalidField(field))
            },
            None => Err(DecodeErrorView::InvalidField(field)),
        },
        Field::OriginServerTs => match json_uint(raw) {
            Some(n) => Ok(SlotsView { origin_server_ts: Some(n), ..slots }),
            None => Err(DecodeErrorView::InvalidField(field)),
        },
        Field::RoomId => match json_string(raw) {
            Some(s) => if room_id_valid(s) {
                Ok(SlotsView { room_id: Some(s), ..slots })
            } else {
                Err(DecodeErrorView::InvalidField(field))
            },
            None => Err(DecodeErrorView::InvalidField(field)),
        },
        Field::StateKey => match json_string(raw) {
            Some(s) => Ok(SlotsView { state_key: Some(s), ..slots }),
            None => Err(DecodeErrorView::InvalidField(field)),
        },
        Field::PrevContent => Ok(SlotsView { prev_content: Some(raw), ..slots }),
        Field::Unsigned => match unsigned_of_json(raw) {
            Some(data) => Ok(SlotsView { unsigned: Some(data), ..slots }),
            None => Err(DecodeErrorView::InvalidField(field)),
        },
    }
}

/// The slots after one more member of the wire object. A key that the codec
/// does not recognise changes nothing. A recognised key whose slot is filled
/// is a duplicate, whatever its value.
pub open spec fn record_spec(slots: SlotsView, member: WireFieldView) -> Result<
    SlotsView,
    DecodeErrorView,
> {
    match Field::of_key(member.key) {
        None => Ok(slots),
        Some(field) => if slots.filled(field) {
            Err(DecodeErrorView::DuplicateField(field))
        } else {
            store_spec(slots, field, member.value)
        },
    }
}

/// The slots after a walk over `members` from the first to the last, or the
/// error of the first member that the walk refuses.
pub open spec fn collect_spec(members: Seq<WireFieldView>) -> Result<SlotsView, DecodeErrorView>
    decreases members.len(),
{
    if members.len() == 0 {
        Ok(SlotsView::empty())
    } else {
        match collect_spec(members.drop_last()) {
            Ok(slots) => record_spec(slots, members.last()),
            Err(e) => Err(e),
        }
    }
}

/// The outcome of a step of the walk, as plain values.
pub open spec fn slots_result_view(r: Result<Slots, DecodeError>) -> Result<
    SlotsView,
    DecodeErrorView,
> {
    match r {
        Ok(slots) => Ok(slots@),
        Err(e) => Err(e@),
    }
}

/// Reads the value of `member` into the slot of `field`. The payloads are
/// stored as they are. Every other value is read into the type of its
/// member, and one that has no reading there is an error.
pub fn store(slots: Slots, field: Field, member: &WireField) -> (r: Result<Slots, DecodeError>)
    ensures
        slots_result_view(r) == store_spec(slots@, field, member.value@),
        slots.wf() && r is Ok ==> r.unwrap().wf(),
{
    let mut slots = slots;
    let raw = member.value.as_str();
    match field {
        Field::Type => match read_string(raw) {
            Some(s) => {
                slots.event_type = Some(s);
                Ok(slots)
            },
            None => Err(DecodeError::InvalidField(field)),
        },
        Field::Content => {
            slots.content = Some(member.value.clone());
            Ok(slots)
        },
        Field::EventId => match read_string(raw) {
            Some(s) => match EventId::parse(s.as_str()) {
                Some(id) => {
                    slots.event_id = Some(id);
                    Ok(slots)
                },
                None => Err(DecodeError::InvalidField(field)),
            },
            None => Err(DecodeError::InvalidField(field)),
        },
        Field::Sender => match read_string(raw) {
            Some(s) => match UserId::parse(s.as_str()) {
                Some(id) => {
                    slots.sender = Some(id);
                    Ok(slots)
                },
                None => Err(DecodeError::InvalidField(field)),
            },
            None => Err(DecodeError::InvalidField(field)),
        },
        Field::OriginServerTs => match read_uint(raw) {
            Some(n) => {
                slots.origin_server_ts = Some(n);
                Ok(slots)
            },
            None => Err(DecodeError::InvalidField(field)),
        },
        Field::RoomId => match read_string(raw) {
            Some(s) => match RoomId::parse(s.as_str()) {
                Some(id) => {
                    slots.room_id = Some(id);
                    Ok(slots)
                },
                None => Err(DecodeError::InvalidField(field)),
            },
            None => Err(DecodeError::InvalidField(field)),
        },
        Field::StateKey => match read_string(raw) {
            Some(s) => {
                slots.state_key = Some(s);
                Ok(slots)
            },
            None => Err(DecodeError::InvalidField(field)),
        },
        Field::PrevContent => {
            slots.prev_content = Some(member.value.clone());
            Ok(slots)
        },
        Field::Unsigned => match UnsignedData::from_json(raw) {
            Some(data) => {
                slots.unsigned = Some(data);
                Ok(slots)
            },
            None => Err(DecodeError::InvalidField(field)),
        },
    }
}

/// Takes one more member of the wire object into the slots. A key that the
/// codec does not recognise is passed over. A recognised key whose slot is
/// filled is refused as a duplicate before its value is looked at.
pub fn record(slots: Slots, member: &WireField) -> (r: Result<Slots, DecodeError>)
    ensures
        slots_result_view(r) == record_spec(slots@, member@),
        slots.wf() && r is Ok ==> r.unwrap().wf(),
{
    match Field::classify(&member.key) {
        None => Ok(slots),
        Some(field) => {
            if slots.is_filled(field) {
                Err(DecodeError::DuplicateField(field))
            } else {
                store(slots, field, member)
            }
        },
    }
}

/// Walks the members of a wire object once, from the first to the last, and
/// fills the slots. The walk ends at the first member that it refuses.
pub fn collect(members: &Vec<WireField>) -> (r: Result<Slots, DecodeError>)
    ensures
        slots_result_view(r) == collect_spec(wire_view(members@)),
        r is Ok ==> r.unwrap().wf(),
{
    let mut slots = Slots::new();
    let mut i: usize = 0;
    assert(wire_view(members@).take(0) =~= Seq::<WireFieldView>::empty());
    while i < members.len()
        invariant
            i <= members.len(),
            slots.wf(),
            collect_spec(wire_view(members@).take(i as int)) == Ok::<SlotsView, DecodeErrorView>(
                slots@,
            ),
        decreases members.len() - i,
    {
        let ghost seen = wire_view(members@).take(i as int);
        let ghost next = wire_view(members@).take(i + 1);
        proof {
            assert(next.drop_last() =~= seen);
            assert(next.last() == members@[i as int]@);
        }
        match record(slots, &members[i]) {
            Ok(s) => {
                slots = s;
            },
            Err(e) => {
                proof {
                    lemma_collect_error_stays(wire_view(members@), i + 1);
                }
                return Err(e);
            },
        }
        i = i + 1;
    }
    assert(wire_view(members@).take(i as int) =~= wire_view(members@));
    Ok(slots)
}

/// A walk that goes one member further records that member in the slots
/// that it had filled so far.
pub proof fn lemma_collect_push(members: Seq<WireFieldView>, next: WireFieldView)
    ensures
        collect_spec(members.push(next)) == match collect_spec(members) {
            Ok(slots) => record_spec(slots, next),
            Err(e) => Err::<SlotsView, DecodeErrorView>(e),
        },
{
    assert(members.push(next).drop_last() =~= members);
}

/// Once the walk has refused a member, the members after it change nothing.
pub proof fn lemma_collect_error_stays(members: Seq<WireFieldView>, n: int)
    requires
        0 <= n <= members.len(),
        collect_spec(members.take(n)) is Err,
    ensures
        collect_spec(members) == collect_spec(members.take(n)),
    decreases members.len() - n,
{
    if n == members.len() {
        assert(members.take(n) =~= members);
    } else {
        assert(members.take(n + 1).drop_last() =~= members.take(n));
        lemma_collect_error_stays(members, n + 1);
    }
}

/// What a payload resolved to: the content, or why the schema refused it.
pub type Resolved<C> = Result<C, ContentError>;

/// The event that filled slots and resolved payloads make, or the first
/// thing that is wrong with them, in this order: no discriminator, no
/// payload, a payload that the schema refused, a previous payload that it
/// refused, a required member that never appeared, a timestamp out of range.
/// `prev` is `None` where the wire object held no previous payload. A side
/// channel that never appeared is empty.
pub open spec fn finish_spec<C>(
    slots: SlotsView,
    content: Resolved<C>,
    prev: Option<Resolved<C>>,
) -> Result<StateEventView<C>, DecodeErrorView> {
    if slots.event_type is None {
        Err(DecodeErrorView::MissingField(Field::Type))
    } else if slots.content is None {
        Err(DecodeErrorView::MissingField(Field::Content))
    } else if content is Err {
        Err(
            DecodeErrorView::Content {
                event_type: slots.event_type.unwrap(),
                error: content->Err_0,
            },
        )
    } else if prev is Some && prev->Some_0 is Err {
        Err(
            DecodeErrorView::Content {
                event_type: slots.event_type.unwrap(),
                error: prev->Some_0->Err_0,
            },
        )
    } else if slots.event_id is None {
        Err(DecodeErrorView::MissingField(Field::EventId))
    } else if slots.sender is None {
        Err(DecodeErrorView::MissingField(Field::Sender))
    } else if slots.origin_server_ts is None {
        Err(DecodeErrorView::MissingField(Field::OriginServerTs))
    } else if slots.room_id is None {
        Err(DecodeErrorView::MissingField(Field::RoomId))
    } else if slots.state_key is None {
        Err(DecodeErrorView::MissingField(Field::StateKey))
    } else if slots.origin_server_ts.unwrap() > MAX_SAFE_UINT {
        Err(DecodeErrorView::TimestampOverflow)
    } else {
        Ok(
            StateEventView {
                content: content->Ok_0,
                event_id: slots.event_id.unwrap(),
                sender: slots.sender.unwrap(),
                origin_server_ts: slots.origin_server_ts.unwrap() * 1_000_000,
                room_id: slots.room_id.unwrap(),
                state_key: slots.state_key.unwrap(),
                prev_content: match prev {
                    Some(p) => Some(p->Ok_0),
                    None => None,
                },
                unsigned: match slots.unsigned {
                    Some(data) => data,
                    None => None,
                },
            },
        )
    }
}

/// The outcome of decoding, as plain values.
pub open spec fn event_result_view<C>(r: Result<StateEvent<C>, DecodeError>) -> Result<
    StateEventView<C>,
    DecodeErrorView,
> {
    match r {
        Ok(event) => Ok(event@),
        Err(e) => Err(e@),
    }
}

/// Makes the event from filled slots and resolved payloads, or reports the
/// first thing that is wrong with them. `prev` is `None` where the wire
/// object held no previous payload.
pub fn finish<C>(slots: Slots, content: Resolved<C>, prev: Option<Resolved<C>>) -> (r: Result<
    StateEvent<C>,
    DecodeError,
>)
    ensures
        event_result_view(r) == finish_spec(slots@, content, prev),
        slots.wf() && r is Ok ==> r.unwrap().wf(),
{
    let event_type = match slots.event_type {
        Some(t) => t,
        None => {
            return Err(DecodeError::MissingField(Field::Type));
        },
    };
    if slots.content.is_none() {
        return Err(DecodeError::MissingField(Field::Content));
    }
    let content = match content {
        Ok(c) => c,
        Err(error) => {
            return Err(DecodeError::Content { event_type, error });
        },
    };
    let prev_content = match prev {
        Some(Ok(p)) => Some(p),
        Some(Err(error)) => {
            return Err(DecodeError::Content { event_type, error });
        },
        None => None,
    };
    let event_id = match slots.event_id {
        Some(id) => id,
        None => {
            return Err(DecodeError::MissingField(Field::EventId));
        },
    };
    let sender = match slots.sender {
        Some(id) => id,
        None => {
            return Err(DecodeError::MissingField(Field::Sender));
        },
    };
    let raw_ts = match slots.origin_server_ts {
        Some(n) => n,
        None => {
            return Err(DecodeError::MissingField(Field::OriginServerTs));
        },
    };
    let room_id = match slots.room_id {
        Some(id) => id,
        None => {
            return Err(DecodeError::MissingField(Field::RoomId));
        },
    };
    let state_key = match slots.state_key {
        Some(key) => key,
        None => {
            return Err(DecodeError::MissingField(Field::StateKey));
        },
    };
    let origin_server_ts = match safe_uint_from_u128(raw_ts) {
        Some(millis) => Timestamp::from_wire(millis),
        None => {
            return Err(DecodeError::TimestampOverflow);
        },
    };
    let unsigned = match slots.unsigned {
        Some(data) => data,
        None => UnsignedData::new(),
    };
    Ok(
        StateEvent {
            content,
            event_id,
            sender,
            origin_server_ts,
            room_id,
            state_key,
            prev_content,
            unsigned,
        },
    )
}

/// What decoding may make of the members of a wire object. Where the walk
/// refuses a member, that is the outcome. Otherwise the outcome is what
/// [`finish_spec`] makes of the slots and of whatever the content type
/// answered for the payloads, and a previous payload was resolved exactly
/// where the wire object held one.
pub open spec fn decode_outcome<C>(
    members: Seq<WireFieldView>,
    outcome: Result<StateEventView<C>, DecodeErrorView>,
) -> bool {
    match collect_spec(members) {
        Err(e) => outcome == Err::<StateEventView<C>, DecodeErrorView>(e),
        Ok(slots) => exists|content: Resolved<C>, prev: Option<Resolved<C>>|
            (prev is Some <==> slots.prev_content is Some) && outcome == #[trigger] finish_spec(
                slots,
                content,
                prev,
            ),
    }
}

/// Decodes the members of a wire object into a state event.
///
/// The members may stand in any order. The discriminator in `type` is handed
/// to the content type together with the untouched text of `content`, and
/// with that of `prev_content` where there is one. No payload is resolved
/// where the discriminator or `content` is missing, and the previous payload
/// is not resolved where `content` was refused.
pub fn decode<C: StateEventContent>(members: &Vec<WireField>) -> (r: Result<
    StateEvent<C>,
    DecodeError,
>)
    ensures
        decode_outcome(wire_view(members@), event_result_view(r)),
        r is Ok ==> r.unwrap().wf(),
{
    let slots = collect(members)?;
    let (content, prev) = match slots.payloads() {
        Some((event_type, raw, prev_raw)) => {
            let content = C::from_parts(event_type, raw);
            let prev = match prev_raw {
                Some(prev_raw) => if content.is_ok() {
                    Some(C::from_parts(event_type, prev_raw))
                } else {
                    Some(Err(ContentError::InvalidPayload))
                },
                None => None,
            };
            (content, prev)
        },
        None => (
            Err(ContentError::InvalidPayload),
            if slots.prev_content.is_some() {
                Some(Err(ContentError::InvalidPayload))
            } else {
                None
            },
        ),
    };
    finish(slots, content, prev)
}

} // verus!
