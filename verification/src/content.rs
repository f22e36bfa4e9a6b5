//! What a content type offers so that the codec can carry it.

use vstd::prelude::*;
use crate::error::ContentError;

verus! {

/// A content type that can stand in a state event.
///
/// The codec knows no schema. It learns the discriminator of a content value
/// and the JSON text of its payload from the value, and it hands the
/// discriminator and the untouched text of a payload to the type when it
/// decodes. New event types are added by implementing this trait and in no
/// other way.
pub trait StateEventContent: Sized {
    /// The discriminator of this value: what the `type` member holds.
    fn event_type(&self) -> String;

    /// The JSON text of this value: what the `content` member holds.
    fn payload(&self) -> String;

    /// The content that the payload `raw` holds under the discriminator
    /// `event_type`. Fails where no schema is registered under the
    /// discriminator and where the payload does not match the schema.
    fn from_parts(event_type: &str, raw: &str) -> Result<Self, ContentError>;
}

} // verus!
