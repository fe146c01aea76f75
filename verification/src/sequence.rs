//! The 16-bit wrapping sequence space and its "newer than" relation.

use vstd::prelude::*;

verus! {

/// A packet sequence number; the space is circular with 2^16 positions.
pub type SequenceNumber = u16;

/// Number of positions in the sequence space.
pub open spec fn space_size() -> int {
    65536
}

/// Half of the sequence space: the largest gap at which order is still decided.
pub open spec fn half_space() -> int {
    32768
}

/// Steps needed to walk forward around the circle from `b` to `a`.
pub open spec fn forward_distance(a: u16, b: u16) -> int {
    (a as int - b as int) % space_size()
}

/// The difference `a - b` read as a signed 16-bit number.
pub open spec fn signed_gap(a: u16, b: u16) -> int {
    let d = forward_distance(a, b);
    if d >= half_space() {
        d - space_size()
    } else {
        d
    }
}

/// `a` is newer than `b` when the signed gap from `b` to `a` is positive.
/// Two numbers exactly half the space apart are a tie: neither is newer.
pub open spec fn is_newer(a: u16, b: u16) -> bool {
    signed_gap(a, b) > 0
}

/// The two numbers sit on opposite points of the circle.
pub open spec fn half_apart(a: u16, b: u16) -> bool {
    forward_distance(a, b) == half_space()
}

/// The sequence number that follows `a`, wrapping at the end of the space.
pub open spec fn successor(a: u16) -> u16 {
    if a == 65535 {
        0
    } else {
        (a + 1) as u16
    }
}

/// How two sequence numbers relate in the circular order.
#[derive(Clone, Copy, Debug, PartialEq, Eq, Structural)]
pub enum SequenceOrder {
    /// The first number is newer than the second.
    Newer,
    /// The first number is older than the second.
    Older,
    /// Both are the same number.
    Same,
    /// The numbers are exactly half the space apart; no order is decided.
    Ambiguous,
}

/// The relation of `a` to `b`, as a value.
pub open spec fn order_of(a: u16, b: u16) -> SequenceOrder {
    if a == b {
        SequenceOrder::Same
    } else if half_apart(a, b) {
        SequenceOrder::Ambiguous
    } else if is_newer(a, b) {
        SequenceOrder::Newer
    } else {
        SequenceOrder::Older
    }
}

/// Whether `a` is newer than `b`.
pub fn newer(a: SequenceNumber, b: SequenceNumber) -> (r: bool)
    ensures
        r == is_newer(a, b),
{
    let d: u16 = a.wrapping_sub(b);
    d != 0 && d < 0x8000
}

/// Whether `a` is older than `b`, that is, `b` is newer than `a`.
pub fn older(a: SequenceNumber, b: SequenceNumber) -> (r: bool)
    ensures
        r == is_newer(b, a),
{
    newer(b, a)
}

/// Classifies `a` against `b`.
pub fn compare(a: SequenceNumber, b: SequenceNumber) -> (r: SequenceOrder)
    ensures
        r == order_of(a, b),
{
    let d: u16 = a.wrapping_sub(b);
    if d == 0 {
        SequenceOrder::Same
    } else if d == 0x8000 {
        SequenceOrder::Ambiguous
    } else if d < 0x8000 {
        SequenceOrder::Newer
    } else {
        SequenceOrder::Older
    }
}

/// Whether a packet numbered `incoming` is news to a receiver that last
/// accepted `last_seen`: anything is news to one that accepted nothing yet,
/// and after that only a newer number is. Duplicates and stale packets are
/// not.
pub open spec fn is_fresh(last_seen: Option<u16>, incoming: u16) -> bool {
    match last_seen {
        None => true,
        Some(last) => is_newer(incoming, last),
    }
}

/// Decides whether to accept the packet numbered `incoming` after
/// `last_seen`.
pub fn fresh(last_seen: Option<SequenceNumber>, incoming: SequenceNumber) -> (r: bool)
    ensures
        r == is_fresh(last_seen, incoming),
{
    match last_seen {
        None => true,
        Some(last) => newer(incoming, last),
    }
}

/// The sequence number to stamp on the packet after `a`.
pub fn next(a: SequenceNumber) -> (r: SequenceNumber)
    ensures
        r == successor(a),
        is_newer(r, a),
{
    a.wrapping_add(1)
}

/// No sequence number is newer than itself.
pub proof fn newer_is_irreflexive(a: u16)
    ensures
        !is_newer(a, a),
{
}

/// Of two different numbers that are not exactly half the space apart,
/// exactly one is newer than the other.
pub proof fn newer_is_antisymmetric(a: u16, b: u16)
    requires
        a != b,
        !half_apart(a, b),
    ensures
        is_newer(a, b) == !is_newer(b, a),
{
}

/// At exactly half the space apart neither number is newer, whichever way
/// the question is asked.
pub proof fn half_apart_is_a_tie(a: u16, b: u16)
    requires
        half_apart(a, b),
    ensures
        half_apart(b, a),
        !is_newer(a, b),
        !is_newer(b, a),
{
}

/// Being newer is never mutual.
pub proof fn newer_is_asymmetric(a: u16, b: u16)
    ensures
        !(is_newer(a, b) && is_newer(b, a)),
{
}

/// A number reached by fewer than half the space of forward steps is newer.
pub proof fn ahead_within_half_is_newer(a: u16, steps: u16)
    requires
        0 < steps < 32768,
    ensures
        is_newer(((a + steps) % 65536) as u16, a),
{
}


/// A packet that was accepted is not accepted a second time, and neither is
/// the packet that was accepted before it.
pub proof fn accepted_packet_is_not_fresh_again(last_seen: Option<u16>, incoming: u16)
    requires
        is_fresh(last_seen, incoming),
    ensures
        !is_fresh(Some(incoming), incoming),
        last_seen.is_some() ==> !is_fresh(Some(incoming), last_seen.unwrap()),
{
}

} // verus!
