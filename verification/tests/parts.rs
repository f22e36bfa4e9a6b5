use state_events::{
    collect, encode_parts, finish, record, store, ContentError, DecodeError, EncodeError, EventId,
    Field, Resolved, RoomId, Slots, StateEvent, Timestamp, TimestampOverflow, UnsignedData, UserId,
    WireField, MAX_SAFE_UINT,
};

fn member(key: &str, value: &str) -> WireField {
    WireField { key: key.to_string(), value: value.to_string() }
}

const FIELDS: [(Field, &str); 9] = [
    (Field::Type, "type"),
    (Field::Content, "content"),
    (Field::EventId, "event_id"),
    (Field::Sender, "sender"),
    (Field::OriginServerTs, "origin_server_ts"),
    (Field::RoomId, "room_id"),
    (Field::StateKey, "state_key"),
    (Field::PrevContent, "prev_content"),
    (Field::Unsigned, "unsigned"),
];

fn filled() -> Slots {
    Slots {
        event_type: Some("m.text".to_string()),
        content: Some("{\"a\":1}".to_string()),
        event_id: EventId::parse("$1:x"),
        sender: UserId::parse("@u:x"),
        origin_server_ts: Some(7),
        room_id: RoomId::parse("!r:x"),
        state_key: Some("k".to_string()),
        prev_content: None,
        unsigned: None,
    }
}

fn event(content: u8, prev: Option<u8>) -> StateEvent<u8> {
    StateEvent {
        content,
        event_id: EventId::parse("$1:x").unwrap(),
        sender: UserId::parse("@u:x").unwrap(),
        origin_server_ts: Timestamp::from_wire(7),
        room_id: RoomId::parse("!r:x").unwrap(),
        state_key: "k".to_string(),
        prev_content: prev,
        unsigned: UnsignedData::new(),
    }
}

#[test]
fn field_names() {
    for (field, name) in FIELDS {
        assert_eq!(field.name(), name);
        assert_eq!(Field::classify(&name.to_string()), Some(field));
    }
}

#[test]
fn keys_that_are_not_recognised() {
    for key in ["", "Type", "types", "typ", "event-id", "eventId", "redacts", "age", " type"] {
        assert_eq!(Field::classify(&key.to_string()), None);
    }
}

#[test]
fn from_wire_counts_milliseconds_from_the_epoch() {
    assert_eq!(Timestamp::from_wire(0), Timestamp::epoch());
    assert_eq!(Timestamp::from_wire(1).as_nanos(), 1_000_000);
    assert_eq!(Timestamp::from_wire(1_589_000_000_123).as_nanos(), 1_589_000_000_123_000_000);
    assert_eq!(Timestamp::from_wire(u64::MAX).as_nanos(), 18_446_744_073_709_551_615_000_000);
}

#[test]
fn to_wire_counts_whole_milliseconds() {
    assert_eq!(Timestamp::epoch().to_wire(), Ok(0));
    assert_eq!(Timestamp::from_nanos(999_999).to_wire(), Ok(0));
    assert_eq!(Timestamp::from_nanos(1_000_000).to_wire(), Ok(1));
    assert_eq!(Timestamp::from_nanos(2_999_999).to_wire(), Ok(2));
    assert_eq!(Timestamp::from_wire(123_456).to_wire(), Ok(123_456));
    assert_eq!(Timestamp::from_wire(MAX_SAFE_UINT).to_wire(), Ok(9_007_199_254_740_991));
}

#[test]
fn to_wire_fails_outside_the_range() {
    assert_eq!(Timestamp::from_nanos(-1).to_wire(), Err(TimestampOverflow));
    assert_eq!(Timestamp::from_nanos(i128::MIN).to_wire(), Err(TimestampOverflow));
    assert_eq!(Timestamp::from_wire(MAX_SAFE_UINT + 1).to_wire(), Err(TimestampOverflow));
    assert_eq!(Timestamp::from_wire(u64::MAX).to_wire(), Err(TimestampOverflow));
    assert_eq!(Timestamp::from_nanos(i128::MAX).to_wire(), Err(TimestampOverflow));
    assert_eq!(MAX_SAFE_UINT, 9_007_199_254_740_991);
}

#[test]
fn identifiers_are_validated() {
    assert_eq!(EventId::parse("$h29iv0s8:example.com").unwrap().as_str(), "$h29iv0s8:example.com");
    assert_eq!(
        EventId::parse("$acR1l0raoZnm60CBwAVgqbZqoO/mYU81xysh1u7XcJk").unwrap().as_str(),
        "$acR1l0raoZnm60CBwAVgqbZqoO/mYU81xysh1u7XcJk"
    );
    assert_eq!(UserId::parse("@carl:example.com").unwrap().as_str(), "@carl:example.com");
    assert_eq!(RoomId::parse("!roomid:room.com").unwrap().as_str(), "!roomid:room.com");

    assert_eq!(EventId::parse("h29iv0s8:example.com"), None);
    assert_eq!(EventId::parse("$1:"), None);
    assert_eq!(EventId::parse(""), None);
    assert_eq!(UserId::parse("carl:example.com"), None);
    assert_eq!(UserId::parse("@carl"), None);
    assert_eq!(UserId::parse("@:example.com"), None);
    assert_eq!(UserId::parse("!roomid:room.com"), None);
    assert_eq!(RoomId::parse("roomid:room.com"), None);
    assert_eq!(RoomId::parse("!roomid"), None);
    assert_eq!(RoomId::parse("!roomid:room.com/x"), None);
    assert_eq!(RoomId::parse("@carl:example.com"), None);
}

#[test]
fn unsigned_data_from_json() {
    assert!(UnsignedData::new().is_empty());
    assert!(UnsignedData::default().is_empty());
    assert_eq!(UnsignedData::new().as_json(), None);

    let empty = UnsignedData::from_json(" { } ").unwrap();
    assert!(empty.is_empty());
    assert_eq!(empty, UnsignedData::new());

    let data = UnsignedData::from_json("{\"age\": 5}").unwrap();
    assert!(!data.is_empty());
    assert_eq!(data.as_json(), Some("{\"age\": 5}"));

    for text in ["", "5", "[]", "\"{}\"", "{\"age\"}", "{} {}"] {
        assert_eq!(UnsignedData::from_json(text), None);
    }
}

#[test]
fn slots_start_empty() {
    let slots = Slots::new();
    for (field, _) in FIELDS {
        assert!(!slots.is_filled(field));
    }
    assert_eq!(slots.payloads(), None);
    assert_eq!(collect(&Vec::new()), Ok(Slots::new()));
}

#[test]
fn store_reads_each_member_into_its_slot() {
    let values = [
        (Field::Type, "\"m.text\""),
        (Field::Content, "{\"a\":1}"),
        (Field::EventId, "\"$1:x\""),
        (Field::Sender, "\"@u:x\""),
        (Field::OriginServerTs, "7"),
        (Field::RoomId, "\"!r:x\""),
        (Field::StateKey, "\"k\""),
    ];
    let mut slots = Slots::new();
    for (field, value) in values {
        slots = store(slots, field, &member(field.name(), value)).unwrap();
        assert!(slots.is_filled(field));
    }
    assert_eq!(slots, filled());
    assert_eq!(slots.payloads(), Some(("m.text", "{\"a\":1}", None)));

    let slots = store(slots, Field::PrevContent, &member("prev_content", " [1, 2] ")).unwrap();
    assert_eq!(slots.prev_content, Some(" [1, 2] ".to_string()));
    assert_eq!(slots.payloads(), Some(("m.text", "{\"a\":1}", Some(" [1, 2] "))));
    let slots = store(slots, Field::Unsigned, &member("unsigned", "{\"age\":1}")).unwrap();
    assert_eq!(slots.unsigned, UnsignedData::from_json("{\"age\":1}"));
}

#[test]
fn store_keeps_the_timestamp_as_it_stands() {
    let big = member("origin_server_ts", "9007199254740992");
    let slots = store(Slots::new(), Field::OriginServerTs, &big).unwrap();
    assert_eq!(slots.origin_server_ts, Some(9_007_199_254_740_992));
    let bigger = member("origin_server_ts", "340282366920938463463374607431768211455");
    let slots = store(Slots::new(), Field::OriginServerTs, &bigger).unwrap();
    assert_eq!(slots.origin_server_ts, Some(u128::MAX));
    let too_big = member("origin_server_ts", "340282366920938463463374607431768211456");
    assert_eq!(
        store(Slots::new(), Field::OriginServerTs, &too_big),
        Err(DecodeError::InvalidField(Field::OriginServerTs))
    );
}

#[test]
fn record_passes_over_unknown_keys_and_refuses_duplicates() {
    let slots = record(filled(), &member("age", "not json at all")).unwrap();
    assert_eq!(slots, filled());
    for (field, name) in FIELDS {
        let outcome = record(filled(), &member(name, "{}"));
        if filled().is_filled(field) {
            assert_eq!(outcome, Err(DecodeError::DuplicateField(field)));
        } else {
            assert!(outcome.unwrap().is_filled(field));
        }
    }
}

#[test]
fn collect_stops_at_the_first_member_it_refuses() {
    let members = vec![
        member("sender", "\"@u:x\""),
        member("room_id", "4"),
        member("sender", "\"@u:x\""),
        member("event_id", "4"),
    ];
    assert_eq!(collect(&members), Err(DecodeError::InvalidField(Field::RoomId)));
    let members = vec![
        member("sender", "\"@u:x\""),
        member("sender", "4"),
        member("room_id", "4"),
    ];
    assert_eq!(collect(&members), Err(DecodeError::DuplicateField(Field::Sender)));
    let members = vec![member("sender", "\"@u:x\""), member("state_key", "\"\"")];
    let slots = collect(&members).unwrap();
    assert_eq!(slots.sender, UserId::parse("@u:x"));
    assert_eq!(slots.state_key, Some(String::new()));
    assert_eq!(slots.event_type, None);
}

#[test]
fn finish_makes_the_event() {
    let made = finish(filled(), Ok(3u8), None).unwrap();
    assert_eq!(made, event(3, None));
    let mut slots = filled();
    slots.prev_content = Some("{}".to_string());
    slots.unsigned = UnsignedData::from_json("{\"age\":1}");
    let made = finish(slots, Ok(3u8), Some(Ok(4u8))).unwrap();
    let mut expected = event(3, Some(4));
    expected.unsigned = UnsignedData::from_json("{\"age\":1}").unwrap();
    assert_eq!(made, expected);
}

#[test]
fn finish_reports_the_first_fault() {
    let refused: Resolved<u8> = Err(ContentError::UnknownEventType);
    let bad_payload: Resolved<u8> = Err(ContentError::InvalidPayload);
    let content_error = |error| DecodeError::Content { event_type: "m.text".to_string(), error };

    let mut slots = Slots::new();
    assert_eq!(finish(slots.clone(), refused, None), Err(DecodeError::MissingField(Field::Type)));
    slots.event_type = Some("m.text".to_string());
    assert_eq!(
        finish(slots.clone(), refused, None),
        Err(DecodeError::MissingField(Field::Content))
    );
    slots.content = Some("{}".to_string());
    assert_eq!(
        finish(slots.clone(), refused, Some(bad_payload)),
        Err(content_error(ContentError::UnknownEventType))
    );
    assert_eq!(
        finish(slots.clone(), Ok(1u8), Some(bad_payload)),
        Err(content_error(ContentError::InvalidPayload))
    );
    assert_eq!(
        finish(slots.clone(), Ok(1u8), None),
        Err(DecodeError::MissingField(Field::EventId))
    );
    slots.event_id = EventId::parse("$1:x");
    assert_eq!(
        finish(slots.clone(), Ok(1u8), None),
        Err(DecodeError::MissingField(Field::Sender))
    );
    slots.sender = UserId::parse("@u:x");
    assert_eq!(
        finish(slots.clone(), Ok(1u8), None),
        Err(DecodeError::MissingField(Field::OriginServerTs))
    );
    slots.origin_server_ts = Some(u128::from(MAX_SAFE_UINT) + 1);
    assert_eq!(
        finish(slots.clone(), Ok(1u8), None),
        Err(DecodeError::MissingField(Field::RoomId))
    );
    slots.room_id = RoomId::parse("!r:x");
    assert_eq!(
        finish(slots.clone(), Ok(1u8), None),
        Err(DecodeError::MissingField(Field::StateKey))
    );
    slots.state_key = Some(String::new());
    assert_eq!(finish(slots.clone(), Ok(1u8), None), Err(DecodeError::TimestampOverflow));
    slots.origin_server_ts = Some(u128::from(MAX_SAFE_UINT));
    let made = finish(slots, Ok(1u8), None).unwrap();
    assert_eq!(made.origin_server_ts, Timestamp::from_wire(MAX_SAFE_UINT));
}

#[test]
fn encode_parts_writes_what_it_is_given() {
    let members =
        encode_parts(&event(0, None), "m.\"text\"", "[true]".to_string(), Some("0".to_string()))
            .unwrap();
    assert_eq!(
        members,
        vec![
            member("type", "\"m.\\\"text\\\"\""),
            member("content", "[true]"),
            member("event_id", "\"$1:x\""),
            member("sender", "\"@u:x\""),
            member("origin_server_ts", "7"),
            member("room_id", "\"!r:x\""),
            member("state_key", "\"k\""),
            member("prev_content", "0"),
        ]
    );
    let slots = collect(&members).unwrap();
    assert_eq!(slots.event_type, Some("m.\"text\"".to_string()));
    assert_eq!(slots.payloads(), Some(("m.\"text\"", "[true]", Some("0"))));
    assert_eq!(finish(slots, Ok(0u8), Some(Ok(9u8))), Ok(event(0, Some(9))));
}

#[test]
fn encode_parts_fails_on_the_timestamp_alone() {
    let mut early = event(0, None);
    early.origin_server_ts = Timestamp::from_nanos(-1);
    assert_eq!(
        encode_parts(&early, "m.text", "{}".to_string(), None),
        Err(EncodeError::TimestampOverflow)
    );
    let mut late = event(0, None);
    late.origin_server_ts = Timestamp::from_wire(MAX_SAFE_UINT + 1);
    assert_eq!(
        encode_parts(&late, "m.text", "{}".to_string(), None),
        Err(EncodeError::TimestampOverflow)
    );
}

#[test]
fn decimal_numerals_of_timestamps() {
    for (millis, text) in [
        (0u64, "0"),
        (9, "9"),
        (10, "10"),
        (109, "109"),
        (1_000_000, "1000000"),
        (MAX_SAFE_UINT, "9007199254740991"),
    ] {
        let mut e = event(0, None);
        e.origin_server_ts = Timestamp::from_wire(millis);
        let members = encode_parts(&e, "t", "{}".to_string(), None).unwrap();
        assert_eq!(members[4], member("origin_server_ts", text));
    }
}

#[test]
fn errors_name_their_member() {
    assert_eq!(DecodeError::MissingField(Field::Sender).field(), Some(Field::Sender));
    assert_eq!(DecodeError::DuplicateField(Field::Type).field(), Some(Field::Type));
    assert_eq!(DecodeError::InvalidField(Field::Unsigned).field(), Some(Field::Unsigned));
    assert_eq!(DecodeError::TimestampOverflow.field(), None);
    let content = DecodeError::Content {
        event_type: "m.text".to_string(),
        error: ContentError::InvalidPayload,
    };
    assert_eq!(content.field(), None);
}
