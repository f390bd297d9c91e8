use wifi_handler::{Event, EventQueue};

#[test]
fn new_queue_is_empty() {
    let mut q = EventQueue::new();
    assert!(q.is_empty());
    assert_eq!(q.len(), 0);
    assert_eq!(q.pop(), None);
    assert!(q.is_empty());
}

#[test]
fn queue_is_first_in_first_out() {
    let mut q = EventQueue::new();
    q.push(Event::DeviceMoving);
    q.push(Event::SsidFound(b"net".to_vec()));
    q.push(Event::ConnectionLost);
    assert_eq!(q.len(), 3);
    assert!(!q.is_empty());
    assert_eq!(q.pop(), Some(Event::DeviceMoving));
    assert_eq!(q.pop(), Some(Event::SsidFound(b"net".to_vec())));
    assert_eq!(q.len(), 1);
    assert_eq!(q.pop(), Some(Event::ConnectionLost));
    assert_eq!(q.pop(), None);
}

#[test]
fn radio_event_goes_before_motion_event() {
    let mut q = EventQueue::new();
    q.push(Event::ScanRequested);
    q.push_ready(Event::DeviceMoving, Event::ConnectionLost);
    assert_eq!(q.len(), 3);
    assert_eq!(q.pop(), Some(Event::ScanRequested));
    assert_eq!(q.pop(), Some(Event::ConnectionLost));
    assert_eq!(q.pop(), Some(Event::DeviceMoving));
    assert_eq!(q.pop(), None);

    q.push_ready(Event::ConnectionFailed, Event::DeviceStationary);
    assert_eq!(q.pop(), Some(Event::ConnectionFailed));
    assert_eq!(q.pop(), Some(Event::DeviceStationary));
}

#[test]
fn ready_events_of_one_kind_keep_their_order() {
    let mut q = EventQueue::new();
    q.push_ready(Event::DeviceMoving, Event::DeviceStationary);
    q.push_ready(Event::ConnectionLost, Event::SsidFound(b"x".to_vec()));
    q.push_ready(Event::DeviceStationary, Event::ScanRequested);
    assert_eq!(q.pop(), Some(Event::DeviceMoving));
    assert_eq!(q.pop(), Some(Event::DeviceStationary));
    assert_eq!(q.pop(), Some(Event::ConnectionLost));
    assert_eq!(q.pop(), Some(Event::SsidFound(b"x".to_vec())));
    assert_eq!(q.pop(), Some(Event::ScanRequested));
    assert_eq!(q.pop(), Some(Event::DeviceStationary));
    assert!(q.is_empty());
}
