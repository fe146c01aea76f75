use naia_shared::clock::{clamp_millis, wall_clock_millis, Clock, Instant};
use naia_shared::connection_config::{ConfigError, ConnectionConfig};
use naia_shared::rtt::{smooth, RttData, RttEstimator};

fn estimator(factor: u16) -> RttEstimator {
    RttEstimator::new(&ConnectionConfig::new(10_000, 4_000, factor, 250)).unwrap()
}

fn measure(est: &mut RttEstimator, sequence: u16, sent: u64, acked: u64) -> Option<u64> {
    est.record_send(sequence, Instant::from_millis(sent));
    est.record_ack(sequence, Instant::from_millis(acked))
}

#[test]
fn instant_difference_saturates() {
    let early = Instant::from_millis(100);
    let late = Instant::from_millis(350);
    assert_eq!(late.duration_since(early), 250);
    assert_eq!(early.duration_since(late), 0);
    assert_eq!(late.duration_since(late), 0);
    assert!(late.is_after(early));
    assert!(!early.is_after(late));
    assert_eq!(late.as_millis(), 350);
}

#[test]
fn clamp_millis_saturates() {
    assert_eq!(clamp_millis(0), 0);
    assert_eq!(clamp_millis(12345), 12345);
    assert_eq!(clamp_millis(u64::MAX as u128), u64::MAX);
    assert_eq!(clamp_millis(u64::MAX as u128 + 1), u64::MAX);
}

#[test]
fn clock_never_runs_backward() {
    let clock = Clock::new();
    let first = clock.now();
    let second = clock.now();
    assert!(second.as_millis() >= first.as_millis());
    assert!(second.as_millis() < 60_000);
}

#[test]
fn wall_clock_is_after_the_epoch() {
    let millis = wall_clock_millis().expect("clock before the epoch");
    assert!(millis > 1_500_000_000_000);
}

#[test]
fn rtt_data_new_keeps_the_sequence() {
    let clock = Clock::new();
    let probe = RttData::new(42, &clock);
    assert_eq!(probe.sequence, 42);
    assert!(probe.sending_time.as_millis() < 60_000);
    let fixed = RttData::at(7, Instant::from_millis(900));
    assert_eq!(fixed.sequence, 7);
    assert_eq!(fixed.sending_time, Instant::from_millis(900));
}

#[test]
fn smooth_exact_values() {
    assert_eq!(smooth(None, 100, 100), 100);
    assert_eq!(smooth(Some(100), 200, 100), 110);
    assert_eq!(smooth(Some(110), 50, 100), 104);
    assert_eq!(smooth(Some(100), 200, 0), 100);
    assert_eq!(smooth(Some(100), 200, 1000), 200);
    assert_eq!(smooth(Some(100), 105, 100), 100);
    assert_eq!(smooth(Some(u64::MAX), u64::MAX, 500), u64::MAX);
}

#[test]
fn estimate_is_unknown_before_any_sample() {
    let mut est = estimator(100);
    assert_eq!(est.smoothed_rtt(), None);
    assert!(!est.exceeds_max());
    assert_eq!(est.pending_sequence(), None);
    est.record_send(1, Instant::from_millis(0));
    assert_eq!(est.smoothed_rtt(), None);
    assert_eq!(est.pending_sequence(), Some(1));
}

#[test]
fn zero_latency_is_not_unknown() {
    let mut est = estimator(100);
    assert_eq!(measure(&mut est, 1, 500, 500), Some(0));
    assert_eq!(est.smoothed_rtt(), Some(0));
}

#[test]
fn matching_ack_updates_the_average() {
    let mut est = estimator(100);
    assert_eq!(measure(&mut est, 1, 0, 100), Some(100));
    assert_eq!(est.smoothed_rtt(), Some(100));
    assert_eq!(est.pending_sequence(), None);
    assert_eq!(measure(&mut est, 2, 1000, 1200), Some(200));
    assert_eq!(est.smoothed_rtt(), Some(110));
    assert_eq!(measure(&mut est, 3, 2000, 2050), Some(50));
    assert_eq!(est.smoothed_rtt(), Some(104));
}

#[test]
fn stale_ack_changes_nothing() {
    let mut est = estimator(100);
    assert_eq!(est.record_ack(9, Instant::from_millis(10)), None);
    assert_eq!(est.smoothed_rtt(), None);
    assert_eq!(measure(&mut est, 1, 0, 100), Some(100));
    est.record_send(5, Instant::from_millis(200));
    assert_eq!(est.record_ack(4, Instant::from_millis(900)), None);
    assert_eq!(est.smoothed_rtt(), Some(100));
    assert_eq!(est.pending_sequence(), Some(5));
    assert_eq!(est.record_ack(1, Instant::from_millis(900)), None);
    assert_eq!(est.smoothed_rtt(), Some(100));
    assert_eq!(est.record_ack(5, Instant::from_millis(260)), Some(60));
    assert_eq!(est.smoothed_rtt(), Some(96));
    assert_eq!(est.record_ack(5, Instant::from_millis(999)), None);
    assert_eq!(est.smoothed_rtt(), Some(96));
}

#[test]
fn newer_probe_replaces_the_old_one() {
    let mut est = estimator(100);
    est.record_send(1, Instant::from_millis(0));
    est.record_send(2, Instant::from_millis(50));
    assert_eq!(est.record_ack(1, Instant::from_millis(70)), None);
    assert_eq!(est.smoothed_rtt(), None);
    assert_eq!(est.record_ack(2, Instant::from_millis(70)), Some(20));
    assert_eq!(est.smoothed_rtt(), Some(20));
}

#[test]
fn average_follows_the_moving_average_formula() {
    let samples: [u64; 8] = [120, 80, 200, 95, 101, 300, 60, 150];
    for factor in [0u16, 100, 250, 500, 1000] {
        let alpha = factor as f64 / 1000.0;
        let mut est = estimator(factor);
        let mut expected: Option<f64> = None;
        let mut sent: u64 = 0;
        for (i, sample) in samples.iter().enumerate() {
            assert_eq!(measure(&mut est, i as u16, sent, sent + sample), Some(*sample));
            sent += 1000;
            expected = Some(match expected {
                None => *sample as f64,
                Some(prev) => prev * (1.0 - alpha) + *sample as f64 * alpha,
            });
            let got = est.smoothed_rtt().unwrap() as f64;
            assert!((got - expected.unwrap()).abs() <= (i + 1) as f64);
        }
    }
}

#[test]
fn exceeding_the_ceiling_is_signalled() {
    let mut est = estimator(1000);
    measure(&mut est, 1, 0, 250);
    assert!(!est.exceeds_max());
    measure(&mut est, 2, 1000, 1251);
    assert!(est.exceeds_max());
    measure(&mut est, 3, 2000, 2010);
    assert!(!est.exceeds_max());
}

#[test]
fn estimator_refuses_a_bad_configuration() {
    let bad_factor = ConnectionConfig::new(10_000, 4_000, 1001, 250);
    assert!(matches!(
        RttEstimator::new(&bad_factor),
        Err(ConfigError::SmoothingFactorOutOfRange)
    ));
    let bad_interval = ConnectionConfig::new(4_000, 4_000, 100, 250);
    assert!(matches!(
        RttEstimator::new(&bad_interval),
        Err(ConfigError::HeartbeatNotBelowTimeout)
    ));
}

#[test]
fn default_configuration_values() {
    let config = ConnectionConfig::default();
    assert_eq!(config.disconnection_timeout_duration, 10_000);
    assert_eq!(config.heartbeat_interval, 4_000);
    assert_eq!(config.rtt_smoothing_factor, 100);
    assert_eq!(config.rtt_max_value, 250);
    assert_eq!(config.validate(), Ok(()));
}

#[test]
fn configuration_faults_are_flagged() {
    assert_eq!(
        ConnectionConfig::new(10_000, 4_000, 1001, 250).validate(),
        Err(ConfigError::SmoothingFactorOutOfRange)
    );
    assert_eq!(
        ConnectionConfig::new(4_000, 4_000, 1000, 250).validate(),
        Err(ConfigError::HeartbeatNotBelowTimeout)
    );
    assert_eq!(
        ConnectionConfig::new(1_000, 4_000, 0, 250).validate(),
        Err(ConfigError::HeartbeatNotBelowTimeout)
    );
    assert_eq!(
        ConnectionConfig::new(1_000, 4_000, 2000, 250).validate(),
        Err(ConfigError::SmoothingFactorOutOfRange)
    );
    assert_eq!(ConnectionConfig::new(4_001, 4_000, 1000, 0).validate(), Ok(()));
}
