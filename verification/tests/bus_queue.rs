//! The bus is a first-in first-out queue.

use reactors::bus::EventLoopBus;

#[test]
fn bus_hands_out_in_the_order_sent() {
    let mut bus: EventLoopBus<u32> = EventLoopBus::new();
    assert!(bus.is_empty());
    assert_eq!(bus.recv(), None);
    bus.send(3);
    bus.send(1);
    bus.send(2);
    assert_eq!(bus.len(), 3);
    assert_eq!(bus.recv(), Some(3));
    bus.send(9);
    assert_eq!(bus.recv(), Some(1));
    assert_eq!(bus.recv(), Some(2));
    assert_eq!(bus.recv(), Some(9));
    assert_eq!(bus.recv(), None);
    assert_eq!(bus.recv(), None);
    assert!(bus.is_empty());
    assert_eq!(bus.len(), 0);
}
