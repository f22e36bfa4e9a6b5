//! The members of a wire object and the names the codec recognises.

use vstd::prelude::*;
use vstd::string::StringExecFns;

verus! {

/// The members that the codec recognises in a wire object.
#[derive(Clone, Copy, Debug, PartialEq, Eq, Structural)]
pub enum Field {
    Type,
    Content,
    EventId,
    Sender,
    OriginServerTs,
    RoomId,
    StateKey,
    PrevContent,
    Unsigned,
}

/// One member of a wire object: its key, and the JSON text of its value
/// exactly as it stood in the object.
#[derive(Clone, Debug, PartialEq, Eq)]
pub struct WireField {
    pub key: String,
    pub value: String,
}

/// What a [`WireField`] holds, as plain sequences of characters.
pub struct WireFieldView {
    pub key: Seq<char>,
    pub value: Seq<char>,
}

impl View for WireField {
    type V = WireFieldView;

    open spec fn view(&self) -> WireFieldView {
        WireFieldView { key: self.key@, value: self.value@ }
    }
}

/// The members of a wire object in the order in which they stand in it.
pub open spec fn wire_view(fields: Seq<WireField>) -> Seq<WireFieldView> {
    fields.map_values(|f: WireField| f@)
}

impl Field {
    /// The key under which this member stands in a wire object.
    pub open spec fn key(self) -> Seq<char> {
        match self {
            Field::Type => "type"@,
            Field::Content => "content"@,
            Field::EventId => "event_id"@,
            Field::Sender => "sender"@,
            Field::OriginServerTs => "origin_server_ts"@,
            Field::RoomId => "room_id"@,
            Field::StateKey => "state_key"@,
            Field::PrevContent => "prev_content"@,
            Field::Unsigned => "unsigned"@,
        }
    }

    /// Whether decoding fails when this member is absent.
    pub open spec fn required(self) -> bool {
        self != Field::PrevContent && self != Field::Unsigned
    }

    /// The member that stands under `key`, if the codec recognises the key.
    pub open spec fn of_key(key: Seq<char>) -> Option<Field> {
        if key == "type"@ {
            Some(Field::Type)
        } else if key == "content"@ {
            Some(Field::Content)
        } else if key == "event_id"@ {
            Some(Field::EventId)
        } else if key == "sender"@ {
            Some(Field::Sender)
        } else if key == "origin_server_ts"@ {
            Some(Field::OriginServerTs)
        } else if key == "room_id"@ {
            Some(Field::RoomId)
        } else if key == "state_key"@ {
            Some(Field::StateKey)
        } else if key == "prev_content"@ {
            Some(Field::PrevContent)
        } else if key == "unsigned"@ {
            Some(Field::Unsigned)
        } else {
            None
        }
    }

    /// The key under which this member stands in a wire object.
    pub fn name(self) -> (name: &'static str)
        ensures
            name@ == self.key(),
    {
        match self {
            Field::Type => "type",
            Field::Content => "content",
            Field::EventId => "event_id",
            Field::Sender => "sender",
            Field::OriginServerTs => "origin_server_ts",
            Field::RoomId => "room_id",
            Field::StateKey => "state_key",
            Field::PrevContent => "prev_content",
            Field::Unsigned => "unsigned",
        }
    }

    /// Classifies a key of a wire object. Keys that the codec does not
    /// recognise give `None`.
    pub fn classify(key: &String) -> (field: Option<Field>)
        ensures
            field == Field::of_key(key@),
    {
        if *key == String::from_str("type") {
            Some(Field::Type)
        } else if *key == String::from_str("content") {
            Some(Field::Content)
        } else if *key == String::from_str("event_id") {
            Some(Field::EventId)
        } else if *key == String::from_str("sender") {
            Some(Field::Sender)
        } else if *key == String::from_str("origin_server_ts") {
            Some(Field::OriginServerTs)
        } else if *key == String::from_str("room_id") {
            Some(Field::RoomId)
        } else if *key == String::from_str("state_key") {
            Some(Field::StateKey)
        } else if *key == String::from_str("prev_content") {
            Some(Field::PrevContent)
        } else if *key == String::from_str("unsigned") {
            Some(Field::Unsigned)
        } else {
            None
        }
    }
}

/// The nine keys differ from one another, so each member is found again under
/// its own key and under no other.
pub proof fn lemma_key_classifies(field: Field)
    ensures
        Field::of_key(field.key()) == Some(field),
{
    reveal_strlit("type");
    reveal_strlit("content");
    reveal_strlit("event_id");
    reveal_strlit("sender");
    reveal_strlit("origin_server_ts");
    reveal_strlit("room_id");
    reveal_strlit("state_key");
    reveal_strlit("prev_content");
    reveal_strlit("unsigned");
    let k = field.key();
    assert("type"@.len() == 4);
    assert("content"@.len() == 7);
    assert("event_id"@.len() == 8);
    assert("sender"@.len() == 6);
    assert("origin_server_ts"@.len() == 16);
    assert("room_id"@.len() == 7);
    assert("state_key"@.len() == 9);
    assert("prev_content"@.len() == 12);
    assert("unsigned"@.len() == 8);
    assert("content"@[0] == 'c');
    assert("room_id"@[0] == 'r');
    assert("event_id"@[0] == 'e');
    assert("unsigned"@[0] == 'u');
}

/// A key that classifies as a member is that member's key.
pub proof fn lemma_classified_key(key: Seq<char>, field: Field)
    requires
        Field::of_key(key) == Some(field),
    ensures
        key == field.key(),
{
}

/// Two members have two keys.
pub proof fn lemma_keys_differ(a: Field, b: Field)
    requires
        a != b,
    ensures
        a.key() != b.key(),
{
    lemma_key_classifies(a);
    lemma_key_classifies(b);
}

} // verus!
