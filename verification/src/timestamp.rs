//! Second-resolution timestamps and their wire encoding.

use vstd::prelude::*;
use crate::clock::{clamped, clamp_millis, wall_clock_millis};
use crate::wire::{u64_be_bytes, u64_from_be, u64_be_round_trip, write_u64, DecodeError, PacketReader};

verus! {

/// A moment in time in whole seconds, readable from and writable to a byte
/// stream.
#[derive(Copy, Clone, Debug, PartialEq, Eq, Structural)]
pub struct Timestamp {
    time: u64,
}

/// Whole seconds in a millisecond count, saturating at 64 bits.
pub open spec fn seconds_in(millis: u128) -> u64 {
    clamped(millis / 1000)
}

impl Timestamp {
    /// The seconds that this timestamp counts.
    pub closed spec fn seconds(&self) -> u64 {
        self.time
    }

    /// The eight bytes that stand for this timestamp on the wire.
    pub open spec fn encoded(&self) -> Seq<u8> {
        u64_be_bytes(self.seconds())
    }

    /// The timestamp that `bytes` begins with, where there are eight bytes.
    pub open spec fn decoded(bytes: Seq<u8>) -> Option<Timestamp> {
        if bytes.len() >= 8 {
            Some(Timestamp::of(u64_from_be(bytes) as u64))
        } else {
            None
        }
    }

    /// The timestamp that counts `seconds`.
    pub closed spec fn of(seconds: u64) -> Timestamp {
        Timestamp { time: seconds }
    }

    /// A timestamp is its count of seconds and nothing else.
    pub broadcast proof fn of_seconds(t: Timestamp)
        ensures
            #[trigger] Timestamp::of(t.seconds()) == t,
    {
    }

    /// Each count of seconds has its timestamp.
    pub broadcast proof fn seconds_of(seconds: u64)
        ensures
            #[trigger] Timestamp::of(seconds).seconds() == seconds,
    {
    }

    /// The timestamp that counts `seconds`.
    pub fn from_seconds(seconds: u64) -> (r: Timestamp)
        ensures
            r == Timestamp::of(seconds),
            r.seconds() == seconds,
    {
        Timestamp { time: seconds }
    }

    /// The timestamp of a clock reading in milliseconds, truncated to whole
    /// seconds.
    pub fn from_millis(millis: u128) -> (r: Timestamp)
        ensures
            r.seconds() == seconds_in(millis),
    {
        Timestamp { time: clamp_millis(millis / 1000) }
    }

    /// The seconds that this timestamp counts.
    pub fn as_seconds(&self) -> (r: u64)
        ensures
            r == self.seconds(),
    {
        self.time
    }

    /// A timestamp for the current moment, truncated to whole seconds; `None`
    /// where the machine's clock reads a moment before the Unix epoch. The
    /// reading depends on the clock, so nothing more is stated of it.
    pub fn now() -> (r: Option<Timestamp>) {
        match wall_clock_millis() {
            Some(millis) => Some(Timestamp::from_millis(millis)),
            None => None,
        }
    }

    /// Appends the timestamp's eight big-endian bytes to `buffer`.
    pub fn write(&self, buffer: &mut Vec<u8>)
        ensures
            final(buffer)@ == old(buffer)@ + self.encoded(),
    {
        write_u64(buffer, self.time);
    }

    /// Consumes eight bytes from `reader` and rebuilds the timestamp; fails,
    /// consuming nothing, when fewer than eight bytes remain.
    pub fn read(reader: &mut PacketReader) -> (r: Result<Timestamp, DecodeError>)
        ensures
            final(reader).content() == old(reader).content(),
            r.is_ok() ==> r.unwrap().seconds() == u64_from_be(old(reader).rest()) as u64,
            match Timestamp::decoded(old(reader).rest()) {
                Some(t) => r == Ok::<Timestamp, DecodeError>(t)
                    && final(reader).consumed() == old(reader).consumed() + 8,
                None => r == Err::<Timestamp, DecodeError>(DecodeError::Truncated)
                    && final(reader).consumed() == old(reader).consumed(),
            },
    {
        match reader.read_u64() {
            Ok(time) => Ok(Timestamp { time }),
            Err(e) => Err(e),
        }
    }
}

/// Reading back what was written gives the same timestamp, whatever bytes
/// follow it.
pub proof fn read_inverts_write(t: Timestamp, tail: Seq<u8>)
    ensures
        Timestamp::decoded(t.encoded() + tail) == Some(t),
{
    u64_be_round_trip(t.seconds());
    let bytes = t.encoded() + tail;
    assert(bytes.len() >= 8);
    assert(u64_from_be(bytes) == u64_from_be(t.encoded())) by {
        assert(bytes[0] == t.encoded()[0]);
        assert(bytes[1] == t.encoded()[1]);
        assert(bytes[2] == t.encoded()[2]);
        assert(bytes[3] == t.encoded()[3]);
        assert(bytes[4] == t.encoded()[4]);
        assert(bytes[5] == t.encoded()[5]);
        assert(bytes[6] == t.encoded()[6]);
        assert(bytes[7] == t.encoded()[7]);
    }
    Timestamp::of_seconds(t);
}

} // verus!
