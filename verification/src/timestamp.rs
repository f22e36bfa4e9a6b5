//! Conversion between wall-clock instants and the millisecond counts that
//! stand in the `origin_server_ts` member.

use vstd::prelude::*;

verus! {

/// The largest integer that the wire format carries: `2^53 - 1`.
pub const MAX_SAFE_UINT: u64 = 0x001F_FFFF_FFFF_FFFF;

/// Nanoseconds in one millisecond.
pub const NANOS_PER_MILLI: i128 = 1_000_000;

/// A wall-clock instant, held as its distance from the Unix epoch in
/// nanoseconds. Instants before the epoch have a negative distance.
#[derive(Clone, Copy, Debug, PartialEq, Eq, Structural)]
pub struct Timestamp {
    /// Nanoseconds from the epoch to this instant.
    pub nanos: i128,
}

/// An instant that no wire integer stands for.
#[derive(Clone, Copy, Debug, PartialEq, Eq, Structural)]
pub struct TimestampOverflow;

/// The millisecond count of an instant that lies `nanos` nanoseconds from the
/// epoch, where it has one: the instant is not before the epoch and its whole
/// milliseconds do not exceed [`MAX_SAFE_UINT`].
pub open spec fn wire_millis(nanos: int) -> Option<u64> {
    if 0 <= nanos && nanos / 1_000_000 <= MAX_SAFE_UINT {
        Some((nanos / 1_000_000) as u64)
    } else {
        None
    }
}

/// The instant `nanos` nanoseconds from the epoch without what it holds
/// below the millisecond.
pub open spec fn whole_millis(nanos: int) -> int {
    nanos - nanos % 1_000_000
}

/// `js_int::UInt::try_from` on a `u128`, with the integer it holds handed
/// back as a `u64`: the value itself where it is at most [`MAX_SAFE_UINT`],
/// nothing otherwise.
#[verifier::external_body]
pub(crate) fn safe_uint_from_u128(value: u128) -> (r: Option<u64>)
    ensures
        r == (if value <= MAX_SAFE_UINT { Some(value as u64) } else { None::<u64> }),
{
    js_int::UInt::try_from(value).ok().map(u64::from)
}

impl View for Timestamp {
    type V = int;

    /// The distance from the epoch in nanoseconds.
    open spec fn view(&self) -> int {
        self.nanos as int
    }
}

impl Timestamp {
    /// The Unix epoch.
    pub fn epoch() -> (t: Timestamp)
        ensures
            t@ == 0,
    {
        Timestamp { nanos: 0 }
    }

    /// The instant `nanos` nanoseconds after the epoch, or before it where
    /// `nanos` is negative.
    pub fn from_nanos(nanos: i128) -> (t: Timestamp)
        ensures
            t@ == nanos,
    {
        Timestamp { nanos }
    }

    /// The distance from the epoch in nanoseconds.
    pub fn as_nanos(&self) -> (nanos: i128)
        ensures
            nanos == self@,
    {
        self.nanos
    }

    /// The epoch plus `millis` milliseconds. Nothing is validated here.
    pub fn from_wire(millis: u64) -> (t: Timestamp)
        ensures
            t@ == millis * 1_000_000,
    {
        let wide: i128 = millis as i128;
        Timestamp { nanos: wide * NANOS_PER_MILLI }
    }

    /// The whole milliseconds between the epoch and this instant. Fails for
    /// an instant before the epoch and for one whose count exceeds
    /// [`MAX_SAFE_UINT`].
    pub fn to_wire(&self) -> (r: Result<u64, TimestampOverflow>)
        ensures
            r == match wire_millis(self@) {
                Some(millis) => Ok::<u64, TimestampOverflow>(millis),
                None => Err::<u64, TimestampOverflow>(TimestampOverflow),
            },
    {
        if self.nanos < 0 {
            return Err(TimestampOverflow);
        }
        let millis: u128 = (self.nanos / NANOS_PER_MILLI) as u128;
        match safe_uint_from_u128(millis) {
            Some(m) => Ok(m),
            None => Err(TimestampOverflow),
        }
    }
}

/// Every wire integer survives the trip to an instant and back.
pub proof fn lemma_wire_round_trip(millis: u64)
    requires
        millis <= MAX_SAFE_UINT,
    ensures
        wire_millis(millis * 1_000_000) == Some(millis),
{
}

/// An instant before the epoch has no wire integer, and neither has one more
/// than [`MAX_SAFE_UINT`] whole milliseconds after it.
pub proof fn lemma_wire_bounds(nanos: int)
    ensures
        nanos < 0 ==> wire_millis(nanos) is None,
        nanos >= (MAX_SAFE_UINT + 1) * 1_000_000 ==> wire_millis(nanos) is None,
        0 <= nanos < (MAX_SAFE_UINT + 1) * 1_000_000 ==> wire_millis(nanos) is Some,
{
}

} // verus!
