//! The ways in which decoding and encoding fail.

use vstd::prelude::*;
use crate::field::Field;

verus! {

/// Why a content schema refused a payload.
#[derive(Clone, Copy, Debug, PartialEq, Eq, Structural)]
pub enum ContentError {
    /// No schema is registered under the discriminator.
    UnknownEventType,
    /// The payload does not match the schema that the discriminator selects.
    InvalidPayload,
}

/// Why a wire object is no state event.
#[derive(Clone, Debug, PartialEq, Eq)]
pub enum DecodeError {
    /// A required member never appeared.
    MissingField(Field),
    /// A recognised key appeared a second time.
    DuplicateField(Field),
    /// The value of a member has no reading in the member's type.
    InvalidField(Field),
    /// The content schema refused the discriminator or a payload.
    Content { event_type: String, error: ContentError },
    /// The timestamp lies outside what the wire integer can hold.
    TimestampOverflow,
}

/// What a [`DecodeError`] holds, with strings as sequences of characters.
pub enum DecodeErrorView {
    MissingField(Field),
    DuplicateField(Field),
    InvalidField(Field),
    Content { event_type: Seq<char>, error: ContentError },
    TimestampOverflow,
}

impl View for DecodeError {
    type V = DecodeErrorView;

    open spec fn view(&self) -> DecodeErrorView {
        match *self {
            DecodeError::MissingField(f) => DecodeErrorView::MissingField(f),
            DecodeError::DuplicateField(f) => DecodeErrorView::DuplicateField(f),
            DecodeError::InvalidField(f) => DecodeErrorView::InvalidField(f),
            DecodeError::Content { event_type, error } => DecodeErrorView::Content {
                event_type: event_type@,
                error,
            },
            DecodeError::TimestampOverflow => DecodeErrorView::TimestampOverflow,
        }
    }
}

/// Why a state event has no wire object.
#[derive(Clone, Copy, Debug, PartialEq, Eq, Structural)]
pub enum EncodeError {
    /// The timestamp lies outside what the wire integer can hold.
    TimestampOverflow,
}

impl DecodeError {
    /// The member that the error names, for the errors that name one.
    pub fn field(&self) -> (field: Option<Field>)
        ensures
            field == match self@ {
                DecodeErrorView::MissingField(f) => Some(f),
                DecodeErrorView::DuplicateField(f) => Some(f),
                DecodeErrorView::InvalidField(f) => Some(f),
                _ => None,
            },
    {
        match self {
            DecodeError::MissingField(f) => Some(*f),
            DecodeError::DuplicateField(f) => Some(*f),
            DecodeError::InvalidField(f) => Some(*f),
            _ => None,
        }
    }
}

} // verus!
