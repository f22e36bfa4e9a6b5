//! Encoding: from a state event to the members of its wire object.

use vstd::prelude::*;
use vstd::string::StringExecFns;
use crate::content::StateEventContent;
use crate::decode::{
    collect_spec, finish_spec, lemma_collect_push, store_spec, Resolved, SlotsView,
};
use crate::error::{DecodeErrorView, EncodeError};
use crate::field::{
    lemma_key_classifies, lemma_keys_differ, wire_view, Field, WireField, WireFieldView,
};
use crate::json::{decimal, json_string_text, opt_str_view, write_string, write_uint};
use crate::state::{StateEvent, StateEventView};
use crate::timestamp::{whole_millis, wire_millis};

verus! {

/// The member that stands under the key of `field` with the JSON text
/// `value`.
pub open spec fn member(field: Field, value: Seq<char>) -> WireFieldView {
    WireFieldView { key: field.key(), value }
}

/// The member that a payload or a side channel makes where there is one.
pub open spec fn optional_member(field: Field, value: Option<Seq<char>>) -> Seq<WireFieldView> {
    match value {
        Some(raw) => seq![member(field, raw)],
        None => Seq::empty(),
    }
}

/// The members of the wire object of `event`, in the order in which they
/// are written: `type`, `content`, `event_id`, `sender`, `origin_server_ts`,
/// `room_id`, `state_key`, then `prev_content` where the event has previous
/// content, then `unsigned` where its side channel has members.
///
/// `event_type` is the discriminator of the content, `content` the JSON text
/// of its payload, and `prev` that of the previous payload. The event has no
/// wire object where its timestamp has no wire integer.
pub open spec fn encode_spec<C>(
    event: StateEventView<C>,
    event_type: Seq<char>,
    content: Seq<char>,
    prev: Option<Seq<char>>,
) -> Result<Seq<WireFieldView>, EncodeError> {
    match wire_millis(event.origin_server_ts) {
        None => Err(EncodeError::TimestampOverflow),
        Some(millis) => Ok(
            seq![
                member(Field::Type, json_string_text(event_type)),
                member(Field::Content, content),
                member(Field::EventId, json_string_text(event.event_id)),
                member(Field::Sender, json_string_text(event.sender)),
                member(Field::OriginServerTs, decimal(millis as nat)),
                member(Field::RoomId, json_string_text(event.room_id)),
                member(Field::StateKey, json_string_text(event.state_key)),
            ] + optional_member(Field::PrevContent, prev) + optional_member(
                Field::Unsigned,
                event.unsigned,
            ),
        ),
    }
}

/// The slots that a walk over the wire object of `event` fills: every
/// required member with what the event holds, the timestamp as its wire
/// integer, the payloads as their text, and the side channel only where it
/// has members.
pub open spec fn slots_of<C>(
    event: StateEventView<C>,
    event_type: Seq<char>,
    content: Seq<char>,
    prev: Option<Seq<char>>,
) -> SlotsView {
    SlotsView {
        event_type: Some(event_type),
        content: Some(content),
        event_id: Some(event.event_id),
        sender: Some(event.sender),
        origin_server_ts: match wire_millis(event.origin_server_ts) {
            Some(millis) => Some(millis as u128),
            None => None,
        },
        room_id: Some(event.room_id),
        state_key: Some(event.state_key),
        prev_content: prev,
        unsigned: match event.unsigned {
            Some(raw) => Some(Some(raw)),
            None => None,
        },
    }
}

/// Whether a member stands under the key of `field` among `members`.
pub open spec fn has_member(members: Seq<WireFieldView>, field: Field) -> bool {
    exists|i: int| 0 <= i < members.len() && #[trigger] members[i].key == field.key()
}

/// The outcome of encoding, as plain values.
pub open spec fn wire_result_view(r: Result<Vec<WireField>, EncodeError>) -> Result<
    Seq<WireFieldView>,
    EncodeError,
> {
    match r {
        Ok(members) => Ok(wire_view(members@)),
        Err(e) => Err(e),
    }
}

/// Appends the member of `field` with the JSON text `value`.
fn push_member(out: &mut Vec<WireField>, field: Field, value: String)
    ensures
        wire_view(final(out)@) == wire_view(old(out)@).push(member(field, value@)),
{
    let key = String::from_str(field.name());
    let ghost before = wire_view(out@);
    out.push(WireField { key, value });
    assert(wire_view(out@) =~= before.push(member(field, value@)));
}

/// A walk that has not seen `field` yet and goes on to a member under its
/// key stores the value of that member.
proof fn lemma_walk_step(
    before: Seq<WireFieldView>,
    slots: SlotsView,
    field: Field,
    value: Seq<char>,
    after: SlotsView,
)
    requires
        collect_spec(before) == Ok::<SlotsView, DecodeErrorView>(slots),
        !slots.filled(field),
        store_spec(slots, field, value) == Ok::<SlotsView, DecodeErrorView>(after),
    ensures
        collect_spec(before.push(member(field, value))) == Ok::<SlotsView, DecodeErrorView>(
            after,
        ),
{
    lemma_collect_push(before, member(field, value));
    lemma_key_classifies(field);
}

/// Writes the members of the wire object of `event`, given what its content
/// type answered: the discriminator `event_type`, the JSON text `content` of
/// the payload, and the JSON text `prev_content` of the previous payload
/// where the event has previous content.
///
/// The strings are written as JSON strings and the timestamp as the decimal
/// numeral of its whole milliseconds. `prev_content` stands in the object
/// only where a text is given for it, and `unsigned` only where the side
/// channel has members. An event whose timestamp lies before the epoch, or
/// so late that the wire integer cannot hold its milliseconds, has no wire
/// object.
///
/// What is written for an event with valid identifiers and a well-formed
/// side channel decodes again: a walk over the members accepts them all and
/// fills the slots with what the event holds.
pub fn encode_parts<C>(
    event: &StateEvent<C>,
    event_type: &str,
    content: String,
    prev_content: Option<String>,
) -> (r: Result<Vec<WireField>, EncodeError>)
    ensures
        wire_result_view(r) == encode_spec(
            event@,
            event_type@,
            content@,
            opt_str_view(prev_content),
        ),
        r is Ok && event.wf() ==> collect_spec(wire_view(r.unwrap()@)) == Ok::<
            SlotsView,
            DecodeErrorView,
        >(slots_of(event@, event_type@, content@, opt_str_view(prev_content))),
{
    let millis = match event.origin_server_ts.to_wire() {
        Ok(millis) => millis,
        Err(_) => {
            return Err(EncodeError::TimestampOverflow);
        },
    };
    let mut out: Vec<WireField> = Vec::new();
    let ghost s0 = SlotsView::empty();
    let ghost w0 = wire_view(out@);
    assert(w0 =~= Seq::<WireFieldView>::empty());

    push_member(&mut out, Field::Type, write_string(event_type));
    let ghost s1 = SlotsView { event_type: Some(event_type@), ..s0 };
    let ghost w1 = wire_view(out@);
    proof {
        lemma_walk_step(w0, s0, Field::Type, json_string_text(event_type@), s1);
    }

    let ghost content_text = content@;
    push_member(&mut out, Field::Content, content);
    let ghost s2 = SlotsView { content: Some(content_text), ..s1 };
    let ghost w2 = wire_view(out@);
    proof {
        lemma_walk_step(w1, s1, Field::Content, content_text, s2);
    }

    push_member(&mut out, Field::EventId, write_string(event.event_id.as_str()));
    let ghost s3 = SlotsView { event_id: Some(event.event_id@), ..s2 };
    let ghost w3 = wire_view(out@);
    proof {
        if event.wf() {
            lemma_walk_step(w2, s2, Field::EventId, json_string_text(event.event_id@), s3);
        }
    }

    push_member(&mut out, Field::Sender, write_string(event.sender.as_str()));
    let ghost s4 = SlotsView { sender: Some(event.sender@), ..s3 };
    let ghost w4 = wire_view(out@);
    proof {
        if event.wf() {
            lemma_walk_step(w3, s3, Field::Sender, json_string_text(event.sender@), s4);
        }
    }

    push_member(&mut out, Field::OriginServerTs, write_uint(millis));
    let ghost s5 = SlotsView { origin_server_ts: Some(millis as u128), ..s4 };
    let ghost w5 = wire_view(out@);
    proof {
        if event.wf() {
            lemma_walk_step(w4, s4, Field::OriginServerTs, decimal(millis as nat), s5);
        }
    }

    push_member(&mut out, Field::RoomId, write_string(event.room_id.as_str()));
    let ghost s6 = SlotsView { room_id: Some(event.room_id@), ..s5 };
    let ghost w6 = wire_view(out@);
    proof {
        if event.wf() {
            lemma_walk_step(w5, s5, Field::RoomId, json_string_text(event.room_id@), s6);
        }
    }

    push_member(&mut out, Field::StateKey, write_string(event.state_key.as_str()));
    let ghost s7 = SlotsView { state_key: Some(event.state_key@), ..s6 };
    let ghost w7 = wire_view(out@);
    proof {
        if event.wf() {
            lemma_walk_step(w6, s6, Field::StateKey, json_string_text(event.state_key@), s7);
        }
    }

    let ghost prev_text = opt_str_view(prev_content);
    if let Some(raw) = prev_content {
        let ghost raw_text = raw@;
        push_member(&mut out, Field::PrevContent, raw);
        proof {
            if event.wf() {
                lemma_walk_step(
                    w7,
                    s7,
                    Field::PrevContent,
                    raw_text,
                    SlotsView { prev_content: Some(raw_text), ..s7 },
                );
            }
        }
    }
    let ghost s8 = SlotsView { prev_content: prev_text, ..s7 };
    let ghost w8 = wire_view(out@);
    assert(w8 =~= w7 + optional_member(Field::PrevContent, prev_text));

    if let Some(raw) = event.unsigned.as_json() {
        push_member(&mut out, Field::Unsigned, String::from_str(raw));
        proof {
            if event.wf() {
                lemma_walk_step(
                    w8,
                    s8,
                    Field::Unsigned,
                    raw@,
                    SlotsView { unsigned: Some(Some(raw@)), ..s8 },
                );
            }
        }
    }
    let ghost w9 = wire_view(out@);
    assert(w9 =~= w8 + optional_member(Field::Unsigned, event.unsigned@));
    assert(w9 =~= encode_spec(
        event@,
        event_type@,
        content_text,
        prev_text,
    )->Ok_0);
    Ok(out)
}

/// The answer of a content type that resolved a previous payload to `prev`,
/// where there was one.
pub open spec fn resolved_prev<C>(prev: Option<C>) -> Option<Resolved<C>> {
    match prev {
        Some(p) => Some(Ok(p)),
        None => None,
    }
}

/// Whether `members` decode back to `event`: the walk accepts them all, and
/// where the content type resolves the payloads to the content of the event,
/// the event that is made holds all that `event` holds, with the timestamp
/// cut to whole milliseconds.
pub open spec fn decodes_back<C>(event: StateEventView<C>, members: Seq<WireFieldView>) -> bool {
    &&& collect_spec(members) is Ok
    &&& finish_spec(
        collect_spec(members)->Ok_0,
        Ok(event.content),
        resolved_prev(event.prev_content),
    ) == Ok::<StateEventView<C>, DecodeErrorView>(
        StateEventView { origin_server_ts: whole_millis(event.origin_server_ts), ..event },
    )
}

/// Round trip. An event that has a wire object comes back from the slots
/// that its wire object fills, provided that the content type resolves the
/// payloads to the content they were written for: all that the event holds
/// is as it was, but for the timestamp, which has lost what it held below the
/// millisecond. An event whose timestamp is a whole number of milliseconds
/// comes back as it was.
pub proof fn lemma_round_trip<C>(
    event: StateEventView<C>,
    event_type: Seq<char>,
    content: Seq<char>,
    prev: Option<Seq<char>>,
)
    requires
        wire_millis(event.origin_server_ts) is Some,
    ensures
        finish_spec(
            slots_of(event, event_type, content, prev),
            Ok(event.content),
            resolved_prev(event.prev_content),
        ) == Ok::<StateEventView<C>, DecodeErrorView>(
            StateEventView { origin_server_ts: whole_millis(event.origin_server_ts), ..event },
        ),
        event.origin_server_ts % 1_000_000 == 0 ==> finish_spec(
            slots_of(event, event_type, content, prev),
            Ok(event.content),
            resolved_prev(event.prev_content),
        ) == Ok::<StateEventView<C>, DecodeErrorView>(event),
{
}

/// What encoding may write for `event`: the members that [`encode_spec`]
/// gives for whatever the content type answered, with a text for the
/// previous payload exactly where the event has previous content. Where the
/// event is well formed, a walk over the members fills the slots with what
/// the event holds.
pub open spec fn encode_outcome<C>(
    event: StateEventView<C>,
    outcome: Result<Seq<WireFieldView>, EncodeError>,
) -> bool {
    exists|event_type: Seq<char>, content: Seq<char>, prev: Option<Seq<char>>|
        {
            &&& prev is Some <==> event.prev_content is Some
            &&& outcome == #[trigger] encode_spec(event, event_type, content, prev)
            &&& outcome is Ok && event.wf() ==> collect_spec(outcome->Ok_0) == Ok::<
                SlotsView,
                DecodeErrorView,
            >(slots_of(event, event_type, content, prev))
        }
}

/// Among the members that encoding writes, `prev_content` stands exactly
/// where a previous payload is given, `unsigned` exactly where the side
/// channel has members, and every required member always. No two members
/// stand under one key.
pub proof fn lemma_encode_members<C>(
    event: StateEventView<C>,
    event_type: Seq<char>,
    content: Seq<char>,
    prev: Option<Seq<char>>,
)
    requires
        encode_spec(event, event_type, content, prev) is Ok,
    ensures
        has_member(encode_spec(event, event_type, content, prev)->Ok_0, Field::PrevContent)
            <==> prev is Some,
        has_member(encode_spec(event, event_type, content, prev)->Ok_0, Field::Unsigned)
            <==> event.unsigned is Some,
        forall|field: Field|
            field.required() ==> #[trigger] has_member(
                encode_spec(event, event_type, content, prev)->Ok_0,
                field,
            ),
        forall|i: int, j: int|
            0 <= i < j < encode_spec(event, event_type, content, prev)->Ok_0.len() ==> (
            #[trigger] encode_spec(event, event_type, content, prev)->Ok_0[i]).key != (
            #[trigger] encode_spec(event, event_type, content, prev)->Ok_0[j]).key,
{
    let members = encode_spec(event, event_type, content, prev)->Ok_0;
    assert forall|a: Field, b: Field| a != b implies #[trigger] a.key() != #[trigger] b.key() by {
        lemma_keys_differ(a, b);
    }
    assert(members[0].key == Field::Type.key());
    assert(members[1].key == Field::Content.key());
    assert(members[2].key == Field::EventId.key());
    assert(members[3].key == Field::Sender.key());
    assert(members[4].key == Field::OriginServerTs.key());
    assert(members[5].key == Field::RoomId.key());
    assert(members[6].key == Field::StateKey.key());
    assert forall|field: Field| field.required() implies has_member(members, field) by {
        let i: int = match field {
            Field::Type => 0,
            Field::Content => 1,
            Field::EventId => 2,
            Field::Sender => 3,
            Field::OriginServerTs => 4,
            Field::RoomId => 5,
            _ => 6,
        };
        assert(members[i].key == field.key());
    }
    if prev is Some {
        assert(members[7].key == Field::PrevContent.key());
        if event.unsigned is Some {
            assert(members[8].key == Field::Unsigned.key());
        }
    } else {
        if event.unsigned is Some {
            assert(members[7].key == Field::Unsigned.key());
        }
    }
}

/// Encodes a state event as the members of its wire object.
///
/// The discriminator and the JSON text of the payloads are asked of the
/// content type. The members are written in a fixed order, each once:
/// `type`, `content`, `event_id`, `sender`, `origin_server_ts`, `room_id`,
/// `state_key`, then `prev_content` only where the event has previous
/// content, then `unsigned` only where the side channel has members.
/// Encoding fails exactly where the timestamp has no wire integer.
///
/// What is written for an event with valid identifiers and a well-formed
/// side channel decodes back to the event, with the timestamp cut to whole
/// milliseconds.
pub fn encode<C: StateEventContent>(event: &StateEvent<C>) -> (r: Result<
    Vec<WireField>,
    EncodeError,
>)
    ensures
        encode_outcome(event@, wire_result_view(r)),
        r is Err <==> wire_millis(event.origin_server_ts@) is None,
        r is Ok && event.wf() ==> decodes_back(event@, wire_view(r.unwrap()@)),
        r is Ok ==> {
            let members = wire_view(r.unwrap()@);
            &&& has_member(members, Field::PrevContent) <==> event.prev_content is Some
            &&& has_member(members, Field::Unsigned) <==> event.unsigned@ is Some
            &&& forall|field: Field| field.required() ==> #[trigger] has_member(members, field)
        },
{
    let event_type = event.content.event_type();
    let content = event.content.payload();
    let prev = match &event.prev_content {
        Some(prev_content) => Some(prev_content.payload()),
        None => None,
    };
    let ghost content_text = content@;
    let ghost prev_text = opt_str_view(prev);
    let r = encode_parts(event, event_type.as_str(), content, prev);
    proof {
        if r is Ok {
            lemma_encode_members(event@, event_type@, content_text, prev_text);
            lemma_round_trip(event@, event_type@, content_text, prev_text);
        }
    }
    r
}

} // verus!
