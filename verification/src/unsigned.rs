//! The side channel of an event that its signature does not cover.

use vstd::prelude::*;
use vstd::string::StringExecFns;
use crate::json::{json_object_len, read_object_len};

verus! {

/// Key-value data that travels with an event outside its signature.
///
/// The codec carries the data as the JSON text of an object and knows of it
/// only whether it has members. Data without members holds no text.
#[derive(Clone, Debug, PartialEq, Eq)]
pub struct UnsignedData {
    raw: Option<String>,
}

impl View for UnsignedData {
    type V = Option<Seq<char>>;

    /// The JSON text of the data, or `None` where the data has no members.
    closed spec fn view(&self) -> Option<Seq<char>> {
        match self.raw {
            Some(text) => Some(text@),
            None => None,
        }
    }
}

/// What decoding makes of the JSON text `raw` of an `unsigned` member:
/// nothing where the text is no object, else the data, which is empty where
/// the object has no members.
pub open spec fn unsigned_of_json(raw: Seq<char>) -> Option<Option<Seq<char>>> {
    match json_object_len(raw) {
        None => None,
        Some(len) => if len == 0 {
            Some(None)
        } else {
            Some(Some(raw))
        },
    }
}

/// Whether `data` is the view of side-channel data that is well formed.
pub open spec fn unsigned_wf(data: Option<Seq<char>>) -> bool {
    match data {
        Some(text) => unsigned_of_json(text) == Some(Some(text)),
        None => true,
    }
}

impl UnsignedData {
    /// Data with members holds the text of a JSON object with members.
    pub open spec fn wf(&self) -> bool {
        unsigned_wf(self@)
    }

    /// Data without members.
    pub fn new() -> (data: UnsignedData)
        ensures
            data@ is None,
            data.wf(),
    {
        UnsignedData { raw: None }
    }

    /// The data that the JSON text `raw` holds, where `raw` is the text of an
    /// object.
    pub fn from_json(raw: &str) -> (r: Option<UnsignedData>)
        ensures
            match unsigned_of_json(raw@) {
                Some(data) => r is Some && r.unwrap()@ == data && r.unwrap().wf(),
                None => r is None,
            },
    {
        match read_object_len(raw) {
            None => None,
            Some(len) => if len == 0 {
                Some(UnsignedData { raw: None })
            } else {
                Some(UnsignedData { raw: Some(String::from_str(raw)) })
            },
        }
    }

    /// Whether the data has no members.
    pub fn is_empty(&self) -> (empty: bool)
        ensures
            empty == (self@ is None),
    {
        self.raw.is_none()
    }

    /// The JSON text of the data, where it has members.
    pub fn as_json(&self) -> (text: Option<&str>)
        ensures
            match text {
                Some(t) => self@ == Some(t@),
                None => self@ is None,
            },
    {
        match &self.raw {
            Some(text) => Some(text.as_str()),
            None => None,
        }
    }
}

impl Default for UnsignedData {
    fn default() -> (data: UnsignedData)
        ensures
            data@ is None,
    {
        UnsignedData { raw: None }
    }
}

} // verus!
