//! Big-endian wire encoding of integers and the byte cursor that incoming
//! packets are read through.

use vstd::prelude::*;
use vstd::slice::slice_subrange;

verus! {

/// The eight bytes of `n`, most significant first.
pub open spec fn u64_be_bytes(n: u64) -> Seq<u8> {
    seq![
        ((n as int / 0x100_0000_0000_0000) % 256) as u8,
        ((n as int / 0x1_0000_0000_0000) % 256) as u8,
        ((n as int / 0x100_0000_0000) % 256) as u8,
        ((n as int / 0x1_0000_0000) % 256) as u8,
        ((n as int / 0x100_0000) % 256) as u8,
        ((n as int / 0x1_0000) % 256) as u8,
        ((n as int / 0x100) % 256) as u8,
        (n as int % 256) as u8,
    ]
}

/// The number that the first eight bytes of `b` spell, most significant first.
pub open spec fn u64_from_be(b: Seq<u8>) -> int
    recommends
        b.len() >= 8,
{
    b[0] as int * 0x100_0000_0000_0000 + b[1] as int * 0x1_0000_0000_0000 + b[2] as int
        * 0x100_0000_0000 + b[3] as int * 0x1_0000_0000 + b[4] as int * 0x100_0000 + b[5] as int
        * 0x1_0000 + b[6] as int * 0x100 + b[7] as int
}

/// The two bytes of `n`, most significant first.
pub open spec fn u16_be_bytes(n: u16) -> Seq<u8> {
    seq![(n as int / 256) as u8, (n as int % 256) as u8]
}

/// The number that the first two bytes of `b` spell, most significant first.
pub open spec fn u16_from_be(b: Seq<u8>) -> int
    recommends
        b.len() >= 2,
{
    b[0] as int * 256 + b[1] as int
}

/// Decoding the encoding of a 64-bit number gives the number back.
pub proof fn u64_be_round_trip(n: u64)
    ensures
        u64_be_bytes(n).len() == 8,
        u64_from_be(u64_be_bytes(n)) == n,
{
    let q0 = n as int;
    let q1 = q0 / 256;
    let q2 = q1 / 256;
    let q3 = q2 / 256;
    let q4 = q3 / 256;
    let q5 = q4 / 256;
    let q6 = q5 / 256;
    let q7 = q6 / 256;
    assert(q1 == q0 / 0x100);
    assert(q2 == q0 / 0x1_0000);
    assert(q3 == q0 / 0x100_0000);
    assert(q4 == q0 / 0x1_0000_0000);
    assert(q5 == q0 / 0x100_0000_0000);
    assert(q6 == q0 / 0x1_0000_0000_0000);
    assert(q7 == q0 / 0x100_0000_0000_0000);
    assert(q7 < 256);
    assert(q0 == q1 * 256 + q0 % 256);
    assert(q1 == q2 * 256 + q1 % 256);
    assert(q2 == q3 * 256 + q2 % 256);
    assert(q3 == q4 * 256 + q3 % 256);
    assert(q4 == q5 * 256 + q4 % 256);
    assert(q5 == q6 * 256 + q5 % 256);
    assert(q6 == q7 * 256 + q6 % 256);
}

/// Decoding the encoding of a 16-bit number gives the number back.
pub proof fn u16_be_round_trip(n: u16)
    ensures
        u16_be_bytes(n).len() == 2,
        u16_from_be(u16_be_bytes(n)) == n,
{
}

/// Calls `byteorder::BigEndian::write_u64` on a fresh eight-byte array and
/// hands the array back. The contract claims that the array holds the
/// big-endian bytes of `n`.
#[verifier::external_body]
fn be_array_u64(n: u64) -> (r: [u8; 8])
    ensures
        r@ == u64_be_bytes(n),
{
    let mut buf = [0u8; 8];
    <byteorder::BigEndian as byteorder::ByteOrder>::write_u64(&mut buf, n);
    buf
}

/// Calls `byteorder::BigEndian::read_u64`, which panics on fewer than eight
/// bytes. The contract claims that the result is the big-endian reading of
/// the first eight bytes.
#[verifier::external_body]
fn be_read_u64(bytes: &[u8]) -> (r: u64)
    requires
        bytes@.len() >= 8,
    ensures
        r == u64_from_be(bytes@),
{
    <byteorder::BigEndian as byteorder::ByteOrder>::read_u64(bytes)
}

/// Calls `byteorder::BigEndian::write_u16` on a fresh two-byte array and
/// hands the array back. The contract claims that the array holds the
/// big-endian bytes of `n`.
#[verifier::external_body]
fn be_array_u16(n: u16) -> (r: [u8; 2])
    ensures
        r@ == u16_be_bytes(n),
{
    let mut buf = [0u8; 2];
    <byteorder::BigEndian as byteorder::ByteOrder>::write_u16(&mut buf, n);
    buf
}

/// Calls `byteorder::BigEndian::read_u16`, which panics on fewer than two
/// bytes. The contract claims that the result is the big-endian reading of
/// the first two bytes.
#[verifier::external_body]
fn be_read_u16(bytes: &[u8]) -> (r: u16)
    requires
        bytes@.len() >= 2,
    ensures
        r == u16_from_be(bytes@),
{
    <byteorder::BigEndian as byteorder::ByteOrder>::read_u16(bytes)
}

/// Why a value could not be read from a packet.
#[derive(Clone, Copy, Debug, PartialEq, Eq, Structural)]
pub enum DecodeError {
    /// Fewer bytes remain than the value needs.
    Truncated,
}

/// Appends the big-endian bytes of `n` to `buffer`.
pub fn write_u64(buffer: &mut Vec<u8>, n: u64)
    ensures
        final(buffer)@ == old(buffer)@ + u64_be_bytes(n),
{
    let bytes = be_array_u64(n);
    let ghost before = buffer@;
    let mut i: usize = 0;
    while i < 8
        invariant
            i <= 8,
            bytes@ == u64_be_bytes(n),
            buffer@ == before + bytes@.subrange(0, i as int),
        decreases 8 - i,
    {
        buffer.push(bytes[i]);
        i += 1;
    }
    assert(bytes@.subrange(0, 8) == bytes@);
}

/// Appends the big-endian bytes of `n` to `buffer`.
pub fn write_u16(buffer: &mut Vec<u8>, n: u16)
    ensures
        final(buffer)@ == old(buffer)@ + u16_be_bytes(n),
{
    let bytes = be_array_u16(n);
    let ghost before = buffer@;
    let mut i: usize = 0;
    while i < 2
        invariant
            i <= 2,
            bytes@ == u16_be_bytes(n),
            buffer@ == before + bytes@.subrange(0, i as int),
        decreases 2 - i,
    {
        buffer.push(bytes[i]);
        i += 1;
    }
    assert(bytes@.subrange(0, 2) == bytes@);
}

/// A cursor over the bytes of one incoming packet.
pub struct PacketReader {
    bytes: Vec<u8>,
    position: usize,
}

impl PacketReader {
    /// The cursor never stands past the end of the packet.
    #[verifier::type_invariant]
    spec fn in_bounds(&self) -> bool {
        self.position <= self.bytes@.len()
    }

    /// All bytes of the packet.
    pub closed spec fn content(&self) -> Seq<u8> {
        self.bytes@
    }

    /// How many bytes have been consumed.
    pub closed spec fn consumed(&self) -> int {
        self.position as int
    }

    /// The bytes not yet consumed.
    pub open spec fn rest(&self) -> Seq<u8> {
        self.content().subrange(self.consumed(), self.content().len() as int)
    }

    /// A cursor at the start of `bytes`.
    pub fn new(bytes: Vec<u8>) -> (r: PacketReader)
        ensures
            r.content() == bytes@,
            r.consumed() == 0,
    {
        PacketReader { bytes, position: 0 }
    }

    /// Number of bytes not yet consumed.
    pub fn remaining(&self) -> (n: usize)
        ensures
            n == self.content().len() - self.consumed(),
            n == self.rest().len(),
    {
        proof {
            use_type_invariant(self);
        }
        self.bytes.len() - self.position
    }

    /// Consumes eight bytes and reads them as a big-endian number; leaves the
    /// cursor where it is when fewer than eight bytes remain.
    pub fn read_u64(&mut self) -> (r: Result<u64, DecodeError>)
        ensures
            final(self).content() == old(self).content(),
            old(self).rest().len() >= 8 ==> final(self).consumed() == old(self).consumed() + 8
                && r == Ok::<u64, DecodeError>(u64_from_be(old(self).rest()) as u64),
            old(self).rest().len() < 8 ==> final(self).consumed() == old(self).consumed()
                && r == Err::<u64, DecodeError>(DecodeError::Truncated),
    {
        proof {
            use_type_invariant(&*self);
        }
        if self.bytes.len() - self.position < 8 {
            return Err(DecodeError::Truncated);
        }
        let start: usize = self.position;
        let window = slice_subrange(self.bytes.as_slice(), start, start + 8);
        let value = be_read_u64(window);
        self.position = start + 8;
        Ok(value)
    }

    /// Consumes `count` bytes and hands them out in order; leaves the cursor
    /// where it is when fewer than `count` bytes remain.
    pub fn read_bytes(&mut self, count: usize) -> (r: Result<Vec<u8>, DecodeError>)
        ensures
            final(self).content() == old(self).content(),
            old(self).rest().len() >= count ==> r.is_ok()
                && r.unwrap()@ == old(self).rest().subrange(0, count as int)
                && final(self).consumed() == old(self).consumed() + count,
            old(self).rest().len() < count ==> r.is_err()
                && r.unwrap_err() == DecodeError::Truncated
                && final(self).consumed() == old(self).consumed(),
    {
        proof {
            use_type_invariant(&*self);
        }
        if self.bytes.len() - self.position < count {
            return Err(DecodeError::Truncated);
        }
        let start: usize = self.position;
        let mut out: Vec<u8> = Vec::new();
        let mut i: usize = 0;
        while i < count
            invariant
                i <= count,
                start + count <= self.bytes@.len() <= usize::MAX,
                self.position == start,
                self.bytes@ == old(self).bytes@,
                out@ == self.bytes@.subrange(start as int, start + i),
            decreases count - i,
        {
            out.push(self.bytes[start + i]);
            i += 1;
            assert(out@ =~= self.bytes@.subrange(start as int, start + i));
        }
        self.position = start + count;
        assert(out@ =~= old(self).rest().subrange(0, count as int));
        Ok(out)
    }

    /// Consumes two bytes and reads them as a big-endian number; leaves the
    /// cursor where it is when fewer than two bytes remain.
    pub fn read_u16(&mut self) -> (r: Result<u16, DecodeError>)
        ensures
            final(self).content() == old(self).content(),
            old(self).rest().len() >= 2 ==> final(self).consumed() == old(self).consumed() + 2
                && r == Ok::<u16, DecodeError>(u16_from_be(old(self).rest()) as u16),
            old(self).rest().len() < 2 ==> final(self).consumed() == old(self).consumed()
                && r == Err::<u16, DecodeError>(DecodeError::Truncated),
    {
        proof {
            use_type_invariant(&*self);
        }
        if self.bytes.len() - self.position < 2 {
            return Err(DecodeError::Truncated);
        }
        let start: usize = self.position;
        let window = slice_subrange(self.bytes.as_slice(), start, start + 2);
        let value = be_read_u16(window);
        self.position = start + 2;
        Ok(value)
    }
}

} // verus!
