//! The policy values that a connection is created with.

use vstd::prelude::*;

verus! {

/// What is wrong with a configuration.
#[derive(Clone, Copy, Debug, PartialEq, Eq, Structural)]
pub enum ConfigError {
    /// The smoothing factor is above one, that is, above 1000 thousandths.
    SmoothingFactorOutOfRange,
    /// The heartbeat interval is not strictly below the disconnection
    /// timeout, which guarantees spurious disconnects.
    HeartbeatNotBelowTimeout,
}

/// Config properties used by a server or a client. Durations are held in
/// whole milliseconds and the smoothing factor in thousandths.
#[derive(Clone, Copy, Debug, PartialEq, Eq, Structural)]
pub struct ConnectionConfig {
    /// How long to wait for communication from a remote host before
    /// initiating a disconnect, in milliseconds.
    pub disconnection_timeout_duration: u64,
    /// How long to wait before sending a heartbeat to a remote host, in
    /// milliseconds.
    pub heartbeat_interval: u64,
    /// The factor used to smooth out network jitter, in thousandths: 0 is 0%
    /// and 1000 is 100%.
    pub rtt_smoothing_factor: u16,
    /// The maximum round-trip time before it is considered a problem, in
    /// milliseconds.
    pub rtt_max_value: u16,
}

impl ConnectionConfig {
    /// The smoothing factor is a ratio and the heartbeat fits inside the
    /// timeout.
    pub open spec fn is_valid(&self) -> bool {
        self.rtt_smoothing_factor <= 1000 && self.heartbeat_interval
            < self.disconnection_timeout_duration
    }

    /// The first fault of the configuration, if it has one.
    pub open spec fn fault(&self) -> Option<ConfigError> {
        if self.rtt_smoothing_factor > 1000 {
            Some(ConfigError::SmoothingFactorOutOfRange)
        } else if self.heartbeat_interval >= self.disconnection_timeout_duration {
            Some(ConfigError::HeartbeatNotBelowTimeout)
        } else {
            None
        }
    }

    /// Creates a configuration from its four values, as they are.
    pub fn new(
        disconnection_timeout_duration: u64,
        heartbeat_interval: u64,
        rtt_smoothing_factor: u16,
        rtt_max_value: u16,
    ) -> (r: Self)
        ensures
            r.disconnection_timeout_duration == disconnection_timeout_duration,
            r.heartbeat_interval == heartbeat_interval,
            r.rtt_smoothing_factor == rtt_smoothing_factor,
            r.rtt_max_value == rtt_max_value,
    {
        ConnectionConfig {
            disconnection_timeout_duration,
            heartbeat_interval,
            rtt_smoothing_factor,
            rtt_max_value,
        }
    }

    /// Flags a misconfiguration: succeeds exactly on valid configurations and
    /// names the first fault otherwise.
    pub fn validate(&self) -> (r: Result<(), ConfigError>)
        ensures
            r.is_ok() == self.is_valid(),
            match self.fault() {
                Some(e) => r == Err::<(), ConfigError>(e),
                None => r == Ok::<(), ConfigError>(()),
            },
    {
        if self.rtt_smoothing_factor > 1000 {
            Err(ConfigError::SmoothingFactorOutOfRange)
        } else if self.heartbeat_interval >= self.disconnection_timeout_duration {
            Err(ConfigError::HeartbeatNotBelowTimeout)
        } else {
            Ok(())
        }
    }
}

impl Default for ConnectionConfig {
    /// Ten seconds of timeout, a heartbeat every four seconds, a smoothing
    /// factor of 10% and an RTT ceiling of 250 ms.
    fn default() -> (r: Self)
        ensures
            r.disconnection_timeout_duration == 10_000,
            r.heartbeat_interval == 4_000,
            r.rtt_smoothing_factor == 100,
            r.rtt_max_value == 250,
            r.is_valid(),
    {
        ConnectionConfig {
            disconnection_timeout_duration: 10_000,
            heartbeat_interval: 4_000,
            rtt_smoothing_factor: 100,
            rtt_max_value: 250,
        }
    }
}

} // verus!
