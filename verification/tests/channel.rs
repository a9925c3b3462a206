use sensor_fusion::channel::{FanOut, RecvOutcome};
use sensor_fusion::models::FusedSensorData;

fn estimate(stamp: i64) -> FusedSensorData {
    let mut e = FusedSensorData::new();
    e.timestamp = stamp;
    e
}

/// Scenario: a subscriber that sleeps through more publications than the
/// channel retains gets one lag notification with the exact skipped count,
/// then receives every retained and fresh estimate in order.
#[test]
fn lagging_subscriber_gets_exact_skip_count_then_fresh_data() {
    let mut ch = FanOut::new(4);
    let sub = ch.subscribe();
    for i in 0..10 {
        ch.publish(estimate(i));
    }
    // 10 published, 4 retained: 6 were skipped.
    match ch.recv(sub) {
        RecvOutcome::Lagged(skipped) => assert_eq!(skipped, 6),
        _ => panic!("expected a lag notification"),
    }
    for i in 6..10 {
        match ch.recv(sub) {
            RecvOutcome::Msg(m) => assert_eq!(m.timestamp, i),
            _ => panic!("expected estimate {i}"),
        }
    }
    match ch.recv(sub) {
        RecvOutcome::Empty => {},
        _ => panic!("expected the channel to be drained"),
    }
    // Lag is not fatal: fresh estimates keep arriving.
    ch.publish(estimate(10));
    match ch.recv(sub) {
        RecvOutcome::Msg(m) => assert_eq!(m.timestamp, 10),
        _ => panic!("expected the fresh estimate"),
    }
}

/// A subscriber that keeps up sees every estimate in publication order.
#[test]
fn subscriber_in_step_sees_everything() {
    let mut ch = FanOut::new(3);
    let sub = ch.subscribe();
    for i in 0..3 {
        ch.publish(estimate(100 + i));
        match ch.recv(sub) {
            RecvOutcome::Msg(m) => assert_eq!(m.timestamp, 100 + i),
            _ => panic!("expected estimate {i}"),
        }
    }
}

/// Publishing with no subscribers never blocks and is simply discarded;
/// a later subscriber starts from the estimates published after it joined.
#[test]
fn publish_without_subscribers_is_discarded() {
    let mut ch = FanOut::new(2);
    ch.publish(estimate(1));
    ch.publish(estimate(2));
    assert_eq!(ch.published(), 2);
    let sub = ch.subscribe();
    match ch.recv(sub) {
        RecvOutcome::Empty => {},
        _ => panic!("a new subscriber must start at the head"),
    }
    ch.publish(estimate(3));
    match ch.recv(sub) {
        RecvOutcome::Msg(m) => assert_eq!(m.timestamp, 3),
        _ => panic!("expected the fresh estimate"),
    }
}

/// Two subscribers read independently: one lagging does not disturb the
/// other.
#[test]
fn independent_subscribers() {
    let mut ch = FanOut::new(2);
    let fast = ch.subscribe();
    let slow = ch.subscribe();
    for i in 0..5 {
        ch.publish(estimate(i));
        match ch.recv(fast) {
            RecvOutcome::Msg(m) => assert_eq!(m.timestamp, i),
            _ => panic!("fast subscriber fell behind"),
        }
    }
    match ch.recv(slow) {
        RecvOutcome::Lagged(skipped) => assert_eq!(skipped, 3),
        _ => panic!("expected the slow subscriber to lag"),
    }
}
