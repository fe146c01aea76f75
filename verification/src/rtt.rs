//! Round-trip-time probes and the smoothed estimate built from them.

use vstd::prelude::*;
use crate::clock::{millis_between, Clock, Instant};
use crate::connection_config::{ConfigError, ConnectionConfig};
use crate::sequence::SequenceNumber;

verus! {

/// One outstanding round-trip probe: the packet's sequence number and the
/// instant it was sent.
#[derive(Debug, Clone, Copy, PartialEq, Eq, Structural)]
pub struct RttData {
    pub sequence: SequenceNumber,
    pub sending_time: Instant,
}

impl RttData {
    /// A probe for `sequence`, sent at the instant that `clock` reads now.
    pub fn new(sequence: SequenceNumber, clock: &Clock) -> (r: Self)
        ensures
            r.sequence == sequence,
    {
        RttData { sequence, sending_time: clock.now() }
    }

    /// A probe for `sequence` that was sent at `sending_time`.
    pub fn at(sequence: SequenceNumber, sending_time: Instant) -> (r: Self)
        ensures
            r == (RttData { sequence, sending_time }),
    {
        RttData { sequence, sending_time }
    }
}

/// The estimate after one more sample: the sample itself where nothing was
/// known, else the old estimate weighted by `1 - factor` plus the sample
/// weighted by `factor`, the factor counted in thousandths and the result
/// rounded down.
pub open spec fn blend(previous: Option<u64>, sample: u64, factor: u16) -> u64
    recommends
        factor <= 1000,
{
    match previous {
        None => sample,
        Some(p) => ((p as int * (1000 - factor as int) + sample as int * factor as int)
            / 1000) as u64,
    }
}

/// The exponential moving average of `samples`, oldest first; unknown while
/// there is no sample.
pub open spec fn moving_average(samples: Seq<u64>, factor: u16) -> Option<u64>
    decreases samples.len(),
{
    if samples.len() == 0 {
        None
    } else {
        Some(blend(moving_average(samples.drop_last(), factor), samples.last(), factor))
    }
}

/// One more sample moves the average by one blend step: the average of
/// `samples` followed by `sample` is the blend of the average of `samples`
/// with `sample`.
pub proof fn moving_average_step(samples: Seq<u64>, sample: u64, factor: u16)
    ensures
        moving_average(samples.push(sample), factor) == Some(
            blend(moving_average(samples, factor), sample, factor),
        ),
        moving_average(Seq::<u64>::empty(), factor) == None::<u64>,
        moving_average(seq![sample], factor) == Some(sample),
{
    assert(samples.push(sample).drop_last() =~= samples);
    assert(seq![sample].drop_last() =~= Seq::<u64>::empty());
    assert(moving_average(seq![sample].drop_last(), factor) == None::<u64>);
}

/// A blend lies between the old estimate and the sample.
pub proof fn blend_is_between(previous: u64, sample: u64, factor: u16)
    requires
        factor <= 1000,
    ensures
        previous <= sample ==> previous <= blend(Some(previous), sample, factor) <= sample,
        sample <= previous ==> sample <= blend(Some(previous), sample, factor) <= previous,
{
    let p = previous as int;
    let s = sample as int;
    let f = factor as int;
    let total = p * (1000 - f) + s * f;
    assert(p <= s ==> p * 1000 <= total <= s * 1000) by (nonlinear_arith)
        requires
            0 <= f <= 1000,
            total == p * (1000 - f) + s * f,
    ;
    assert(s <= p ==> s * 1000 <= total <= p * 1000) by (nonlinear_arith)
        requires
            0 <= f <= 1000,
            total == p * (1000 - f) + s * f,
    ;
}

/// Computes the estimate after one more sample.
pub fn smooth(previous: Option<u64>, sample: u64, factor: u16) -> (r: u64)
    requires
        factor <= 1000,
    ensures
        r == blend(previous, sample, factor),
{
    match previous {
        None => sample,
        Some(p) => {
            let keep: u128 = (1000 - factor) as u128;
            let take: u128 = factor as u128;
            proof {
                blend_is_between(p, sample, factor);
                assert(0 <= (p as int) * (keep as int) <= 0xffff_ffff_ffff_ffff * 1000)
                    by (nonlinear_arith)
                    requires
                        0 <= p <= 0xffff_ffff_ffff_ffff,
                        0 <= keep <= 1000,
                ;
                assert(0 <= (sample as int) * (take as int) <= 0xffff_ffff_ffff_ffff * 1000)
                    by (nonlinear_arith)
                    requires
                        0 <= sample <= 0xffff_ffff_ffff_ffff,
                        0 <= take <= 1000,
                ;
            }
            let total: u128 = (p as u128) * keep + (sample as u128) * take;
            (total / 1000) as u64
        },
    }
}

/// Tracks the most recent outstanding probe and the smoothed round-trip
/// time, in milliseconds.
pub struct RttEstimator {
    factor: u16,
    max_value: u16,
    smoothed: Option<u64>,
    live: Option<RttData>,
    history: Ghost<Seq<u64>>,
}

impl RttEstimator {
    /// The factor is a ratio, and the estimate is the moving average of the
    /// samples measured so far.
    #[verifier::type_invariant]
    spec fn consistent(&self) -> bool {
        self.factor <= 1000 && self.smoothed == moving_average(self.history@, self.factor)
    }

    /// The smoothing factor, in thousandths.
    pub closed spec fn smoothing_factor(&self) -> u16 {
        self.factor
    }

    /// The round-trip time, in milliseconds, above which the connection is
    /// considered troubled.
    pub closed spec fn ceiling(&self) -> u16 {
        self.max_value
    }

    /// The smoothed round-trip time in milliseconds; `None` while unknown.
    pub closed spec fn estimate(&self) -> Option<u64> {
        self.smoothed
    }

    /// The probe that waits for its acknowledgement, if there is one.
    pub closed spec fn pending(&self) -> Option<RttData> {
        self.live
    }

    /// The round-trip samples measured so far, oldest first.
    pub closed spec fn samples(&self) -> Seq<u64> {
        self.history@
    }

    /// Whether an acknowledgement of `sequence` answers the pending probe.
    pub open spec fn answers(&self, sequence: SequenceNumber) -> bool {
        self.pending().is_some() && self.pending().unwrap().sequence == sequence
    }

    /// An estimator with no sample and no probe, for a valid configuration;
    /// the configuration's first fault otherwise.
    pub fn new(config: &ConnectionConfig) -> (r: Result<RttEstimator, ConfigError>)
        ensures
            match config.fault() {
                Some(e) => r == Err::<RttEstimator, ConfigError>(e),
                None => {
                    &&& r.is_ok()
                    &&& r.unwrap().smoothing_factor() == config.rtt_smoothing_factor
                    &&& r.unwrap().ceiling() == config.rtt_max_value
                    &&& r.unwrap().estimate() == None::<u64>
                    &&& r.unwrap().pending() == None::<RttData>
                    &&& r.unwrap().samples() == Seq::<u64>::empty()
                },
            },
    {
        match config.validate() {
            Err(e) => Err(e),
            Ok(()) => Ok(
                RttEstimator {
                    factor: config.rtt_smoothing_factor,
                    max_value: config.rtt_max_value,
                    smoothed: None,
                    live: None,
                    history: Ghost(Seq::empty()),
                },
            ),
        }
    }

    /// Remembers that `sequence` was sent at `now`, abandoning any earlier
    /// probe that was never acknowledged.
    pub fn record_send(&mut self, sequence: SequenceNumber, now: Instant)
        ensures
            final(self).pending() == Some(RttData { sequence, sending_time: now }),
            final(self).estimate() == old(self).estimate(),
            final(self).samples() == old(self).samples(),
            final(self).smoothing_factor() == old(self).smoothing_factor(),
            final(self).ceiling() == old(self).ceiling(),
    {
        proof {
            use_type_invariant(&*self);
        }
        *self = RttEstimator {
            factor: self.factor,
            max_value: self.max_value,
            smoothed: self.smoothed,
            live: Some(RttData { sequence, sending_time: now }),
            history: self.history,
        };
    }

    /// Handles the acknowledgement of `sequence` arriving at `now`. Where it
    /// answers the pending probe, the time since the probe was sent becomes
    /// the next sample, the probe is cleared and the sample is returned.
    /// Any other acknowledgement changes nothing.
    pub fn record_ack(&mut self, sequence: SequenceNumber, now: Instant) -> (r: Option<u64>)
        ensures
            final(self).smoothing_factor() == old(self).smoothing_factor(),
            final(self).ceiling() == old(self).ceiling(),
            final(self).estimate() == moving_average(
                final(self).samples(),
                final(self).smoothing_factor(),
            ),
            old(self).answers(sequence) ==> {
                let sample = millis_between(now, old(self).pending().unwrap().sending_time);
                &&& r == Some(sample)
                &&& final(self).samples() == old(self).samples().push(sample)
                &&& final(self).estimate() == Some(
                    blend(old(self).estimate(), sample, old(self).smoothing_factor()),
                )
                &&& final(self).pending() == None::<RttData>
            },
            !old(self).answers(sequence) ==> r == None::<u64> && *final(self) == *old(self),
    {
        proof {
            use_type_invariant(&*self);
        }
        match self.live {
            Some(probe) => {
                if probe.sequence == sequence {
                    let sample = now.duration_since(probe.sending_time);
                    let updated = smooth(self.smoothed, sample, self.factor);
                    proof {
                        moving_average_step(self.history@, sample, self.factor);
                    }
                    *self = RttEstimator {
                        factor: self.factor,
                        max_value: self.max_value,
                        smoothed: Some(updated),
                        live: None,
                        history: Ghost(self.history@.push(sample)),
                    };
                    Some(sample)
                } else {
                    None
                }
            },
            None => None,
        }
    }

    /// The smoothed round-trip time in milliseconds: the moving average of
    /// all samples so far, or `None` while no sample has been measured.
    pub fn smoothed_rtt(&self) -> (r: Option<u64>)
        ensures
            r == self.estimate(),
            r == moving_average(self.samples(), self.smoothing_factor()),
            r.is_none() == (self.samples().len() == 0),
    {
        proof {
            use_type_invariant(self);
        }
        self.smoothed
    }

    /// Whether a round-trip time is known and lies above the ceiling.
    pub fn exceeds_max(&self) -> (r: bool)
        ensures
            r == (self.estimate().is_some() && self.estimate().unwrap() > self.ceiling()),
    {
        match self.smoothed {
            Some(v) => v > self.max_value as u64,
            None => false,
        }
    }

    /// The sequence number of the pending probe, if there is one.
    pub fn pending_sequence(&self) -> (r: Option<SequenceNumber>)
        ensures
            r.is_some() == self.pending().is_some(),
            r.is_some() ==> r.unwrap() == self.pending().unwrap().sequence,
    {
        match self.live {
            Some(probe) => Some(probe.sequence),
            None => None,
        }
    }
}

} // verus!
