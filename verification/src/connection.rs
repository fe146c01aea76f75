//! The liveness state machine of one connection: handshake, inbound
//! activity, heartbeats and the disconnection timeout.

use vstd::prelude::*;
use crate::clock::{millis_between, Instant};
use crate::connection_config::{ConfigError, ConnectionConfig};
use crate::rtt::{blend, moving_average, RttData, RttEstimator};
use crate::sequence::{fresh, is_fresh, SequenceNumber};

verus! {

/// Where a connection stands in its life.
#[derive(Clone, Copy, Debug, PartialEq, Eq, Structural)]
pub enum Lifecycle {
    /// Created, and waiting for the peer's handshake.
    Connecting,
    /// The handshake arrived and the peer has not gone silent.
    Connected,
    /// Closed for good; a new connection object is needed to reconnect.
    Disconnected,
}

/// Why a connection refused an operation.
#[derive(Clone, Copy, Debug, PartialEq, Eq, Structural)]
pub enum ConnectionError {
    /// The connection is disconnected and accepts no further operation.
    Closed,
}

/// What the caller has to do after an update tick.
#[derive(Clone, Copy, Debug, PartialEq, Eq, Structural)]
pub enum TickAction {
    /// Nothing is due.
    Idle,
    /// A heartbeat packet has to be sent now.
    SendHeartbeat,
    /// The peer went silent for too long: the connection has just closed.
    Disconnect,
}

/// The liveness of a connection as plain values.
pub struct ConnectionView {
    pub lifecycle: Lifecycle,
    pub last_received: Instant,
    pub last_heartbeat: Instant,
    pub last_sequence: Option<SequenceNumber>,
    pub config: ConnectionConfig,
}

impl ConnectionView {
    /// The peer has been silent for longer than the disconnection timeout.
    pub open spec fn timed_out(self, now: Instant) -> bool {
        millis_between(now, self.last_received) > self.config.disconnection_timeout_duration
    }

    /// At least one heartbeat interval has passed since the last heartbeat.
    pub open spec fn heartbeat_due(self, now: Instant) -> bool {
        millis_between(now, self.last_heartbeat) >= self.config.heartbeat_interval
    }

    /// The same connection in another lifecycle state.
    pub open spec fn moved_to(self, lifecycle: Lifecycle) -> ConnectionView {
        ConnectionView { lifecycle, ..self }
    }

    /// The same connection with inbound activity noted at `now`.
    pub open spec fn heard_at(self, now: Instant) -> ConnectionView {
        ConnectionView { last_received: now, ..self }
    }

    /// The same connection with a heartbeat sent at `now`.
    pub open spec fn beat_at(self, now: Instant) -> ConnectionView {
        ConnectionView { last_heartbeat: now, ..self }
    }

    /// One update tick at `now`: a closed connection refuses; a connecting
    /// one waits; a connected one closes when the peer was silent for longer
    /// than the timeout, else sends a heartbeat when one is due.
    pub open spec fn tick(self, now: Instant) -> (ConnectionView, Result<TickAction, ConnectionError>) {
        match self.lifecycle {
            Lifecycle::Disconnected => (self, Err(ConnectionError::Closed)),
            Lifecycle::Connecting => (self, Ok(TickAction::Idle)),
            Lifecycle::Connected => if self.timed_out(now) {
                (self.moved_to(Lifecycle::Disconnected), Ok(TickAction::Disconnect))
            } else if self.heartbeat_due(now) {
                (self.beat_at(now), Ok(TickAction::SendHeartbeat))
            } else {
                (self, Ok(TickAction::Idle))
            },
        }
    }

    /// The peer's handshake arrives at `now`.
    pub open spec fn handshake(self, now: Instant) -> (ConnectionView, Result<(), ConnectionError>) {
        match self.lifecycle {
            Lifecycle::Disconnected => (self, Err(ConnectionError::Closed)),
            _ => (self.moved_to(Lifecycle::Connected).heard_at(now), Ok(())),
        }
    }

    /// A packet other than the handshake arrives at `now`.
    pub open spec fn packet(self, now: Instant) -> (ConnectionView, Result<(), ConnectionError>) {
        match self.lifecycle {
            Lifecycle::Disconnected => (self, Err(ConnectionError::Closed)),
            Lifecycle::Connecting => (self, Ok(())),
            Lifecycle::Connected => (self.heard_at(now), Ok(())),
        }
    }

    /// The peer's heartbeat numbered `sequence` arrives at `now`. A
    /// connected connection accepts it where the number is news, noting the
    /// activity and the number, and discards a stale or duplicate one; a
    /// connecting connection discards it. The report says whether it was
    /// accepted.
    pub open spec fn heartbeat(self, sequence: SequenceNumber, now: Instant) -> (
        ConnectionView,
        Result<bool, ConnectionError>,
    ) {
        match self.lifecycle {
            Lifecycle::Disconnected => (self, Err(ConnectionError::Closed)),
            Lifecycle::Connecting => (self, Ok(false)),
            Lifecycle::Connected => if is_fresh(self.last_sequence, sequence) {
                (
                    ConnectionView { last_sequence: Some(sequence), ..self.heard_at(now) },
                    Ok(true),
                )
            } else {
                (self, Ok(false))
            },
        }
    }

    /// The peer, or the application, closes the connection.
    pub open spec fn close(self) -> (ConnectionView, Result<(), ConnectionError>) {
        match self.lifecycle {
            Lifecycle::Disconnected => (self, Err(ConnectionError::Closed)),
            _ => (self.moved_to(Lifecycle::Disconnected), Ok(())),
        }
    }

    /// The connection after update ticks at each of `times`, in order.
    pub open spec fn run(self, times: Seq<Instant>) -> ConnectionView
        decreases times.len(),
    {
        if times.len() == 0 {
            self
        } else {
            self.run(times.drop_last()).tick(times.last()).0
        }
    }
}

/// A disconnected connection refuses every operation and stays as it is.
pub proof fn disconnected_is_terminal(v: ConnectionView, now: Instant)
    requires
        v.lifecycle == Lifecycle::Disconnected,
    ensures
        v.tick(now) == (v, Err::<TickAction, ConnectionError>(ConnectionError::Closed)),
        v.handshake(now) == (v, Err::<(), ConnectionError>(ConnectionError::Closed)),
        v.packet(now) == (v, Err::<(), ConnectionError>(ConnectionError::Closed)),
        v.close() == (v, Err::<(), ConnectionError>(ConnectionError::Closed)),
        forall|sequence: SequenceNumber| #[trigger]
            v.heartbeat(sequence, now) == (
                v,
                Err::<bool, ConnectionError>(ConnectionError::Closed),
            ),
{
}

/// A heartbeat that was accepted is discarded when it arrives again, and
/// the duplicate changes nothing.
pub proof fn duplicate_heartbeat_is_discarded(
    v: ConnectionView,
    sequence: SequenceNumber,
    first: Instant,
    second: Instant,
)
    requires
        v.heartbeat(sequence, first).1 == Ok::<bool, ConnectionError>(true),
    ensures
        v.heartbeat(sequence, first).0.heartbeat(sequence, second) == (
            v.heartbeat(sequence, first).0,
            Ok::<bool, ConnectionError>(false),
        ),
{
}

/// However many ticks follow, a disconnected connection stays disconnected.
pub proof fn stays_disconnected(v: ConnectionView, times: Seq<Instant>)
    requires
        v.lifecycle == Lifecycle::Disconnected,
    ensures
        v.run(times) == v,
    decreases times.len(),
{
    if times.len() > 0 {
        stays_disconnected(v, times.drop_last());
    }
}

/// A connected peer that was silent for longer than the timeout is
/// disconnected by the next tick, and by no tick before that.
pub proof fn timeout_decides_disconnection(v: ConnectionView, now: Instant)
    requires
        v.lifecycle == Lifecycle::Connected,
    ensures
        (v.tick(now).0.lifecycle == Lifecycle::Disconnected) == (millis_between(
            now,
            v.last_received,
        ) > v.config.disconnection_timeout_duration),
        v.tick(now).0.lifecycle != Lifecycle::Connecting,
{
}

/// With no inbound traffic, ticks that all fall within the timeout of the
/// last received packet leave the connection connected.
pub proof fn no_disconnect_before_timeout(v: ConnectionView, times: Seq<Instant>)
    requires
        v.lifecycle == Lifecycle::Connected,
        forall|i: int|
            0 <= i < times.len() ==> millis_between(#[trigger] times[i], v.last_received)
                <= v.config.disconnection_timeout_duration,
    ensures
        v.run(times).lifecycle == Lifecycle::Connected,
        v.run(times).last_received == v.last_received,
        v.run(times).config == v.config,
    decreases times.len(),
{
    if times.len() > 0 {
        let earlier = times.drop_last();
        assert forall|i: int| 0 <= i < earlier.len() implies millis_between(
            #[trigger] earlier[i],
            v.last_received,
        ) <= v.config.disconnection_timeout_duration by {
            assert(earlier[i] == times[i]);
        }
        no_disconnect_before_timeout(v, earlier);
        assert(times.last() == times[times.len() - 1]);
    }
}

/// A tick on a live connection sends a heartbeat exactly when one is due
/// and restarts the heartbeat timer with it; any other tick changes
/// nothing. So after every tick the last heartbeat is either this very
/// instant or less than one interval old.
pub proof fn heartbeat_every_interval(v: ConnectionView, now: Instant)
    requires
        v.lifecycle == Lifecycle::Connected,
        !v.timed_out(now),
    ensures
        (v.tick(now).1 == Ok::<TickAction, ConnectionError>(TickAction::SendHeartbeat))
            == v.heartbeat_due(now),
        v.heartbeat_due(now) ==> v.tick(now).0 == v.beat_at(now),
        !v.heartbeat_due(now) ==> v.tick(now).0 == v,
        v.tick(now).0.last_heartbeat == now || millis_between(now, v.tick(now).0.last_heartbeat)
            < v.config.heartbeat_interval,
        v.tick(now).0.lifecycle == Lifecycle::Connected,
{
}

/// The per-connection record: lifecycle state, the instants of the last
/// inbound packet and of the last heartbeat, and the round-trip estimator.
pub struct ConnectionState {
    config: ConnectionConfig,
    lifecycle: Lifecycle,
    last_received: Instant,
    last_heartbeat: Instant,
    last_sequence: Option<SequenceNumber>,
    rtt: RttEstimator,
}

impl View for ConnectionState {
    type V = ConnectionView;

    closed spec fn view(&self) -> ConnectionView {
        ConnectionView {
            lifecycle: self.lifecycle,
            last_received: self.last_received,
            last_heartbeat: self.last_heartbeat,
            last_sequence: self.last_sequence,
            config: self.config,
        }
    }
}

impl ConnectionState {
    /// The round-trip estimator of the connection.
    pub closed spec fn rtt(&self) -> RttEstimator {
        self.rtt
    }

    /// A connection in the `Connecting` state whose timers start at `now`,
    /// for a valid configuration; the configuration's first fault otherwise.
    pub fn new(config: ConnectionConfig, now: Instant) -> (r: Result<ConnectionState, ConfigError>)
        ensures
            match config.fault() {
                Some(e) => r == Err::<ConnectionState, ConfigError>(e),
                None => {
                    &&& r.is_ok()
                    &&& r.unwrap()@ == (ConnectionView {
                        lifecycle: Lifecycle::Connecting,
                        last_received: now,
                        last_heartbeat: now,
                        last_sequence: None,
                        config,
                    })
                    &&& r.unwrap().rtt().estimate() == None::<u64>
                    &&& r.unwrap().rtt().pending() == None::<RttData>
                    &&& r.unwrap().rtt().samples() == Seq::<u64>::empty()
                    &&& r.unwrap().rtt().smoothing_factor() == config.rtt_smoothing_factor
                    &&& r.unwrap().rtt().ceiling() == config.rtt_max_value
                },
            },
    {
        match RttEstimator::new(&config) {
            Err(e) => Err(e),
            Ok(rtt) => Ok(
                ConnectionState {
                    config,
                    lifecycle: Lifecycle::Connecting,
                    last_received: now,
                    last_heartbeat: now,
                    last_sequence: None,
                    rtt,
                },
            ),
        }
    }

    /// The current lifecycle state.
    pub fn lifecycle(&self) -> (r: Lifecycle)
        ensures
            r == self@.lifecycle,
    {
        self.lifecycle
    }

    /// Whether the connection is closed for good.
    pub fn is_disconnected(&self) -> (r: bool)
        ensures
            r == (self@.lifecycle == Lifecycle::Disconnected),
    {
        match self.lifecycle {
            Lifecycle::Disconnected => true,
            _ => false,
        }
    }

    /// The peer's handshake arrived at `now`: the connection is connected
    /// and the activity is noted. A closed connection refuses.
    pub fn receive_handshake(&mut self, now: Instant) -> (r: Result<(), ConnectionError>)
        ensures
            (final(self)@, r) == old(self)@.handshake(now),
            final(self).rtt() == old(self).rtt(),
    {
        match self.lifecycle {
            Lifecycle::Disconnected => Err(ConnectionError::Closed),
            _ => {
                self.lifecycle = Lifecycle::Connected;
                self.last_received = now;
                Ok(())
            },
        }
    }

    /// A packet arrived at `now`: a connected connection notes the
    /// activity, a connecting one ignores it, a closed one refuses.
    pub fn receive_packet(&mut self, now: Instant) -> (r: Result<(), ConnectionError>)
        ensures
            (final(self)@, r) == old(self)@.packet(now),
            final(self).rtt() == old(self).rtt(),
    {
        match self.lifecycle {
            Lifecycle::Disconnected => Err(ConnectionError::Closed),
            Lifecycle::Connecting => Ok(()),
            Lifecycle::Connected => {
                self.last_received = now;
                Ok(())
            },
        }
    }

    /// The peer's heartbeat numbered `sequence` arrived at `now`. Says
    /// whether it was accepted: a connected connection accepts one whose
    /// number is news and notes the activity, and discards a stale or
    /// duplicate one; a connecting one discards it; a closed one refuses.
    pub fn receive_heartbeat(&mut self, sequence: SequenceNumber, now: Instant) -> (r: Result<
        bool,
        ConnectionError,
    >)
        ensures
            (final(self)@, r) == old(self)@.heartbeat(sequence, now),
            final(self).rtt() == old(self).rtt(),
    {
        match self.lifecycle {
            Lifecycle::Disconnected => Err(ConnectionError::Closed),
            Lifecycle::Connecting => Ok(false),
            Lifecycle::Connected => {
                if fresh(self.last_sequence, sequence) {
                    self.last_received = now;
                    self.last_sequence = Some(sequence);
                    Ok(true)
                } else {
                    Ok(false)
                }
            },
        }
    }

    /// Closes the connection on an explicit disconnect. A connection that
    /// is closed already refuses.
    pub fn disconnect(&mut self) -> (r: Result<(), ConnectionError>)
        ensures
            (final(self)@, r) == old(self)@.close(),
            final(self).rtt() == old(self).rtt(),
    {
        match self.lifecycle {
            Lifecycle::Disconnected => Err(ConnectionError::Closed),
            _ => {
                self.lifecycle = Lifecycle::Disconnected;
                Ok(())
            },
        }
    }

    /// One update tick at `now`. Checks the disconnection timeout first and
    /// the heartbeat timer second, and says what the caller has to do.
    pub fn update(&mut self, now: Instant) -> (r: Result<TickAction, ConnectionError>)
        ensures
            (final(self)@, r) == old(self)@.tick(now),
            final(self).rtt() == old(self).rtt(),
    {
        match self.lifecycle {
            Lifecycle::Disconnected => Err(ConnectionError::Closed),
            Lifecycle::Connecting => Ok(TickAction::Idle),
            Lifecycle::Connected => {
                if now.duration_since(self.last_received)
                    > self.config.disconnection_timeout_duration {
                    self.lifecycle = Lifecycle::Disconnected;
                    Ok(TickAction::Disconnect)
                } else if now.duration_since(self.last_heartbeat)
                    >= self.config.heartbeat_interval {
                    self.last_heartbeat = now;
                    Ok(TickAction::SendHeartbeat)
                } else {
                    Ok(TickAction::Idle)
                }
            },
        }
    }

    /// Notes that the packet `sequence` was sent at `now` as the round-trip
    /// probe. A closed connection refuses and keeps its probe.
    pub fn record_send(&mut self, sequence: SequenceNumber, now: Instant) -> (r: Result<
        (),
        ConnectionError,
    >)
        ensures
            final(self)@ == old(self)@,
            r.is_err() == (old(self)@.lifecycle == Lifecycle::Disconnected),
            r.is_err() ==> final(self).rtt() == old(self).rtt(),
            r.is_ok() ==> final(self).rtt().pending() == Some(
                RttData { sequence, sending_time: now },
            ) && final(self).rtt().estimate() == old(self).rtt().estimate()
                && final(self).rtt().samples() == old(self).rtt().samples(),
    {
        match self.lifecycle {
            Lifecycle::Disconnected => Err(ConnectionError::Closed),
            _ => {
                self.rtt.record_send(sequence, now);
                Ok(())
            },
        }
    }

    /// Handles the acknowledgement of `sequence` arriving at `now`: where it
    /// answers the pending probe, the measured round trip is returned and
    /// enters the estimate; any other acknowledgement changes nothing. A
    /// closed connection refuses.
    pub fn record_ack(&mut self, sequence: SequenceNumber, now: Instant) -> (r: Result<
        Option<u64>,
        ConnectionError,
    >)
        ensures
            final(self)@ == old(self)@,
            r.is_err() == (old(self)@.lifecycle == Lifecycle::Disconnected),
            r.is_err() ==> final(self).rtt() == old(self).rtt(),
            r.is_ok() && !old(self).rtt().answers(sequence) ==> r.unwrap() == None::<u64>
                && final(self).rtt() == old(self).rtt(),
            r.is_ok() && old(self).rtt().answers(sequence) ==> {
                let sample = millis_between(now, old(self).rtt().pending().unwrap().sending_time);
                &&& r.unwrap() == Some(sample)
                &&& final(self).rtt().samples() == old(self).rtt().samples().push(sample)
                &&& final(self).rtt().estimate() == Some(
                    blend(old(self).rtt().estimate(), sample, old(self).rtt().smoothing_factor()),
                )
                &&& final(self).rtt().pending() == None::<RttData>
            },
    {
        match self.lifecycle {
            Lifecycle::Disconnected => Err(ConnectionError::Closed),
            _ => Ok(self.rtt.record_ack(sequence, now)),
        }
    }

    /// The smoothed round-trip time in milliseconds, or `None` while no
    /// round trip has been measured.
    pub fn smoothed_rtt(&self) -> (r: Option<u64>)
        ensures
            r == self.rtt().estimate(),
            r == moving_average(self.rtt().samples(), self.rtt().smoothing_factor()),
    {
        self.rtt.smoothed_rtt()
    }

    /// Whether the smoothed round-trip time is known and above the
    /// configured ceiling. This is a signal only: it closes nothing.
    pub fn rtt_exceeds_max(&self) -> (r: bool)
        ensures
            r == (self.rtt().estimate().is_some() && self.rtt().estimate().unwrap()
                > self.rtt().ceiling()),
    {
        self.rtt.exceeds_max()
    }
}

} // verus!
