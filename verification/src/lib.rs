//! Envelope codec for state events.
//!
//! A state event travels as a JSON object whose `type` member selects the
//! schema of its `content` and `prev_content` members. This crate decodes the
//! members of such an object, in whatever order they arrive, into a typed
//! [`StateEvent`], and encodes a [`StateEvent`] back into its members.

pub mod content;
pub mod decode;
pub mod encode;
pub mod error;
pub mod field;
pub mod identifiers;
pub mod json;
pub mod laws;
pub mod state;
pub mod timestamp;
pub mod unsigned;

pub use content::StateEventContent;
pub use decode::{collect, decode, finish, record, store, Resolved, Slots};
pub use encode::{encode, encode_parts};
pub use error::{ContentError, DecodeError, EncodeError};
pub use field::{Field, WireField};
pub use identifiers::{EventId, RoomId, UserId};
pub use state::StateEvent;
pub use timestamp::{Timestamp, TimestampOverflow, MAX_SAFE_UINT};
pub use unsigned::UnsignedData;
