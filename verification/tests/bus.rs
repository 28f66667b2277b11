use whep_gateway::bus::{FanoutBus, MAX_SUBSCRIBERS};
use whep_gateway::frame::{DataFrame, FrameMetadata, MediaKind};
use whep_gateway::sink::BusEvent;

fn frame(n: u8) -> DataFrame {
    DataFrame {
        metadata: FrameMetadata { ts: n as i64, media: MediaKind::Video, codec: "avc1".to_string() },
        data: vec![0, 0, 0, 1, n],
    }
}

#[test]
fn bus_needs_a_capacity() {
    assert!(FanoutBus::new(0).is_none());
    assert!(FanoutBus::new(usize::MAX).is_none());
    assert!(FanoutBus::new(1).is_some());
}

#[test]
fn new_bus_has_one_subscriber_and_nothing_to_give() {
    let mut bus = FanoutBus::new(8).unwrap();
    assert_eq!(bus.subscriber_count(), 1);
    assert_eq!(bus.poll(0), Some(BusEvent::Empty));
    assert_eq!(bus.poll(1), None);
    assert_eq!(bus.drain(0), Some(vec![]));
    assert_eq!(bus.drain(1), None);
}

#[test]
fn every_attached_subscriber_gets_every_frame_in_order() {
    let mut bus = FanoutBus::new(16).unwrap();
    assert_eq!(bus.subscribe(), Some(1));
    assert_eq!(bus.subscribe(), Some(2));
    assert_eq!(bus.subscriber_count(), 3);
    let sent: Vec<DataFrame> = (1..=10).map(frame).collect();
    for f in &sent {
        bus.publish(f.clone());
    }
    for k in 0..3 {
        assert_eq!(bus.drain(k), Some(sent.clone()));
        assert_eq!(bus.poll(k), Some(BusEvent::Empty));
    }
}

#[test]
fn late_subscriber_gets_only_what_comes_after_it() {
    let mut bus = FanoutBus::new(16).unwrap();
    bus.publish(frame(1));
    bus.publish(frame(2));
    let late = bus.subscribe().unwrap();
    assert_eq!(bus.poll(late), Some(BusEvent::Empty));
    bus.publish(frame(3));
    bus.publish(frame(4));
    assert_eq!(bus.drain(late), Some(vec![frame(3), frame(4)]));
    assert_eq!(bus.drain(0), Some(vec![frame(1), frame(2), frame(3), frame(4)]));
}

#[test]
fn poll_gives_one_frame_at_a_time() {
    let mut bus = FanoutBus::new(4).unwrap();
    bus.publish(frame(1));
    bus.publish(frame(2));
    assert_eq!(bus.poll(0), Some(BusEvent::Frame { frame: frame(1) }));
    bus.publish(frame(3));
    assert_eq!(bus.poll(0), Some(BusEvent::Frame { frame: frame(2) }));
    assert_eq!(bus.poll(0), Some(BusEvent::Frame { frame: frame(3) }));
    assert_eq!(bus.poll(0), Some(BusEvent::Empty));
}

#[test]
fn subscriber_that_lags_misses_the_oldest_frames() {
    let mut bus = FanoutBus::new(2).unwrap();
    bus.publish(frame(10));
    bus.publish(frame(20));
    bus.publish(frame(30));
    assert_eq!(bus.poll(0), Some(BusEvent::Lagged { skipped: 1 }));
    assert_eq!(bus.poll(0), Some(BusEvent::Frame { frame: frame(20) }));
    assert_eq!(bus.poll(0), Some(BusEvent::Frame { frame: frame(30) }));
    assert_eq!(bus.poll(0), Some(BusEvent::Empty));
}

#[test]
fn drain_of_a_lagging_subscriber_gives_what_is_kept() {
    let mut bus = FanoutBus::new(4).unwrap();
    let slow = bus.subscribe().unwrap();
    for n in 1..=9 {
        bus.publish(frame(n));
        assert_eq!(bus.drain(0), Some(vec![frame(n)]));
    }
    assert_eq!(bus.drain(slow), Some(vec![frame(6), frame(7), frame(8), frame(9)]));
    assert_eq!(bus.drain(slow), Some(vec![]));
}

#[test]
fn full_bus_is_no_lag() {
    let mut bus = FanoutBus::new(4).unwrap();
    for n in 1..=4 {
        bus.publish(frame(n));
    }
    assert_eq!(bus.drain(0), Some(vec![frame(1), frame(2), frame(3), frame(4)]));
}

#[test]
fn one_subscriber_does_not_move_another() {
    let mut bus = FanoutBus::new(8).unwrap();
    let other = bus.subscribe().unwrap();
    bus.publish(frame(1));
    bus.publish(frame(2));
    assert_eq!(bus.drain(0), Some(vec![frame(1), frame(2)]));
    assert_eq!(bus.poll(other), Some(BusEvent::Frame { frame: frame(1) }));
    assert_eq!(bus.poll(other), Some(BusEvent::Frame { frame: frame(2) }));
    assert_eq!(bus.poll(other), Some(BusEvent::Empty));
}

#[test]
fn bus_takes_a_bounded_number_of_subscribers() {
    let mut bus = FanoutBus::new(1).unwrap();
    for k in 1..MAX_SUBSCRIBERS {
        assert_eq!(bus.subscribe(), Some(k));
    }
    assert_eq!(bus.subscriber_count(), MAX_SUBSCRIBERS);
    assert_eq!(bus.subscribe(), None);
    assert_eq!(bus.subscriber_count(), MAX_SUBSCRIBERS);
}
