//! The JSON text of single values, read and written by `serde_json`.
//!
//! The codec never looks inside the JSON text of a value itself. Whatever it
//! needs to know of such a text, it asks of `serde_json` through the
//! functions of this module, and its contracts speak of the answers by the
//! names given here.

use vstd::prelude::*;

verus! {

/// The string that `serde_json::from_str::<String>` reads from the text
/// `raw`, or `None` where it reports an error.
pub uninterp spec fn json_string(raw: Seq<char>) -> Option<Seq<char>>;

/// The JSON text that `serde_json::to_string` writes for the string `s`.
pub uninterp spec fn json_string_text(s: Seq<char>) -> Seq<char>;

/// The integer that `serde_json::from_str::<u128>` reads from the text `raw`,
/// or `None` where it reports an error.
pub uninterp spec fn json_uint(raw: Seq<char>) -> Option<u128>;

/// The number of members of the object that
/// `serde_json::from_str::<serde_json::Map<String, serde_json::Value>>` reads
/// from the text `raw`, or `None` where it reports an error.
pub uninterp spec fn json_object_len(raw: Seq<char>) -> Option<usize>;

/// The characters of an optional string.
pub open spec fn opt_str_view(s: Option<String>) -> Option<Seq<char>> {
    match s {
        Some(s) => Some(s@),
        None => None,
    }
}

/// The decimal digit that stands for `d`, for `d` below ten.
pub open spec fn decimal_digit(d: nat) -> char {
    if d == 0 {
        '0'
    } else if d == 1 {
        '1'
    } else if d == 2 {
        '2'
    } else if d == 3 {
        '3'
    } else if d == 4 {
        '4'
    } else if d == 5 {
        '5'
    } else if d == 6 {
        '6'
    } else if d == 7 {
        '7'
    } else if d == 8 {
        '8'
    } else {
        '9'
    }
}

/// The decimal numeral of `n`: its digits from the most significant down,
/// with no leading zero but for `0` itself.
pub open spec fn decimal(n: nat) -> Seq<char>
    decreases n,
{
    if n < 10 {
        seq![decimal_digit(n)]
    } else {
        decimal(n / 10).push(decimal_digit(n % 10))
    }
}

/// `serde_json::from_str::<String>`: reads a JSON string from `raw`. The
/// result is named by [`json_string`].
#[verifier::external_body]
pub(crate) fn read_string(raw: &str) -> (r: Option<String>)
    ensures
        opt_str_view(r) == json_string(raw@),
{
    serde_json::from_str::<String>(raw).ok()
}

/// `serde_json::to_string` on a string: the JSON text of `s`, named by
/// [`json_string_text`]. The contract also claims that `serde_json` reads
/// from that text the string it was written for.
#[verifier::external_body]
pub(crate) fn write_string(s: &str) -> (r: String)
    ensures
        r@ == json_string_text(s@),
        json_string(r@) == Some(s@),
{
    serde_json::to_string(s).unwrap_or_default()
}

/// `serde_json::from_str::<u128>`: reads an unsigned integer from `raw`. The
/// result is named by [`json_uint`].
#[verifier::external_body]
pub(crate) fn read_uint(raw: &str) -> (r: Option<u128>)
    ensures
        r == json_uint(raw@),
{
    serde_json::from_str::<u128>(raw).ok()
}

/// `serde_json::to_string` on a `u64`: its decimal numeral. The contract
/// also claims that `serde_json` reads from that text the integer it was
/// written for.
#[verifier::external_body]
pub(crate) fn write_uint(n: u64) -> (r: String)
    ensures
        r@ == decimal(n as nat),
        json_uint(r@) == Some(n as u128),
{
    serde_json::to_string(&n).unwrap_or_default()
}

/// `serde_json::from_str` into a `serde_json::Map`: reads a JSON object from
/// `raw` and counts its members. The result is named by [`json_object_len`].
#[verifier::external_body]
pub(crate) fn read_object_len(raw: &str) -> (r: Option<usize>)
    ensures
        r == json_object_len(raw@),
{
    match serde_json::from_str::<serde_json::Map<String, serde_json::Value>>(raw) {
        Ok(object) => Some(object.len()),
        Err(_) => None,
    }
}

} // verus!
