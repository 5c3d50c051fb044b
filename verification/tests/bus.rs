use robot_core::bus::{BusRecv, EventBus};
use robot_core::event::{Event, Ldr, Ultrasound};

fn reading(mm: u32) -> Event {
    Event::Ultrasound(Ultrasound { distance_mm: mm })
}

#[test]
fn publish_without_subscribers_is_fine() {
    let mut bus = EventBus::new(64);
    bus.publish(Event::Shutdown);
    bus.publish(reading(100));
}

#[test]
fn subscriber_sees_events_in_publish_order() {
    let mut bus = EventBus::new(64);
    let mut sub = bus.subscribe();
    let a = reading(10);
    let b = reading(20);
    let c = Event::Ldr(Ldr { left: 1, middle: 0, right: 1 });
    bus.publish(a);
    bus.publish(b);
    bus.publish(c);
    assert_eq!(bus.recv(&mut sub), BusRecv::Message(a));
    assert_eq!(bus.recv(&mut sub), BusRecv::Message(b));
    assert_eq!(bus.recv(&mut sub), BusRecv::Message(c));
    assert_eq!(bus.recv(&mut sub), BusRecv::Empty);
}

#[test]
fn subscription_does_not_replay_history() {
    let mut bus = EventBus::new(64);
    bus.publish(reading(1));
    bus.publish(reading(2));
    let mut sub = bus.subscribe();
    assert_eq!(bus.recv(&mut sub), BusRecv::Empty);
    bus.publish(reading(3));
    assert_eq!(bus.recv(&mut sub), BusRecv::Message(reading(3)));
}

#[test]
fn lag_is_announced_once_with_exact_count_then_delivery_resumes() {
    let mut bus = EventBus::new(2);
    let mut sub = bus.subscribe();
    for mm in 1..=5 {
        bus.publish(reading(mm));
    }
    // five pending, backlog of two: three were skipped
    assert_eq!(bus.recv(&mut sub), BusRecv::Lagged(3));
    // exactly once: the next receives deliver the retained fresh events
    assert_eq!(bus.recv(&mut sub), BusRecv::Message(reading(4)));
    assert_eq!(bus.recv(&mut sub), BusRecv::Message(reading(5)));
    assert_eq!(bus.recv(&mut sub), BusRecv::Empty);
}

#[test]
fn keeping_up_never_lags() {
    let mut bus = EventBus::new(2);
    let mut sub = bus.subscribe();
    for mm in 1..=10 {
        bus.publish(reading(mm));
        assert_eq!(bus.recv(&mut sub), BusRecv::Message(reading(mm)));
    }
}

#[test]
fn independent_subscribers_each_see_the_same_order() {
    let mut bus = EventBus::new(64);
    let mut fast = bus.subscribe();
    let mut slow = bus.subscribe();
    bus.publish(reading(7));
    bus.publish(Event::CameraFrameReady);
    assert_eq!(bus.recv(&mut fast), BusRecv::Message(reading(7)));
    assert_eq!(bus.recv(&mut fast), BusRecv::Message(Event::CameraFrameReady));
    assert_eq!(bus.recv(&mut slow), BusRecv::Message(reading(7)));
    assert_eq!(bus.recv(&mut slow), BusRecv::Message(Event::CameraFrameReady));
}
