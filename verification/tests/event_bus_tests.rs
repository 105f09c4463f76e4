use imputio::event_bus::{BusReply, BusRequest, EventBus, EventBusError, SUBID_LIMIT};

#[test]
fn subscriber_gets_published_events_in_order() {
    let mut bus: EventBus<u32> = EventBus::new();
    let id = bus.subscribe().unwrap();
    assert!(id >= 1 && id < SUBID_LIMIT);
    bus.push_to_event_queues(1).unwrap();
    bus.push_to_event_queues(2).unwrap();
    assert_eq!(bus.poll(id), Some(1));
    assert_eq!(bus.poll(id), Some(2));
    assert_eq!(bus.poll(id), None);
}

#[test]
fn every_subscriber_gets_every_event() {
    let mut bus: EventBus<&str> = EventBus::new();
    let a = bus.subscribe().unwrap();
    let b = bus.subscribe().unwrap();
    assert_ne!(a, b);
    bus.push_to_event_queues("x").unwrap();
    assert_eq!(bus.poll(a), Some("x"));
    assert_eq!(bus.poll(b), Some("x"));
}

#[test]
fn events_before_subscription_are_not_seen() {
    let mut bus: EventBus<u8> = EventBus::new();
    bus.push_to_event_queues(9).unwrap();
    let id = bus.subscribe().unwrap();
    assert_eq!(bus.poll(id), None);
}

#[test]
fn batch_poll_takes_everything() {
    let mut bus: EventBus<u32> = EventBus::new();
    let id = bus.subscribe().unwrap();
    for e in 0..5 {
        bus.push_to_event_queues(e).unwrap();
    }
    assert_eq!(bus.batch_poll(id), vec![0, 1, 2, 3, 4]);
    assert_eq!(bus.batch_poll(id), Vec::<u32>::new());
    assert_eq!(bus.poll(id), None);
}

#[test]
fn unknown_subscriber_gets_nothing() {
    let mut bus: EventBus<u32> = EventBus::new();
    bus.push_to_event_queues(1).unwrap();
    assert_eq!(bus.poll(0), None);
    assert_eq!(bus.batch_poll(7), Vec::<u32>::new());
    assert!(bus.unsubscribe(7).is_none());
}

#[test]
fn unsubscribe_returns_pending_events_and_frees_the_id() {
    let mut bus: EventBus<u32> = EventBus::new();
    let id = bus.subscribe().unwrap();
    bus.push_to_event_queues(4).unwrap();
    let rest = bus.unsubscribe(id).unwrap();
    assert_eq!(rest.into_iter().collect::<Vec<_>>(), vec![4]);
    bus.push_to_event_queues(5).unwrap();
    assert_eq!(bus.poll(id), None);
    assert!(bus.unsubscribe(id).is_none());
}

#[test]
fn ids_run_out_after_all_are_taken() {
    let mut bus: EventBus<u8> = EventBus::new();
    let mut ids = std::collections::HashSet::new();
    for _ in 1..SUBID_LIMIT {
        let id = bus.subscribe().unwrap();
        assert!(ids.insert(id));
    }
    assert_eq!(ids.len(), 65534);
    assert_eq!(bus.subscribe(), Err(EventBusError::ResourceExhaustion));
    let some = *ids.iter().next().unwrap();
    assert!(bus.unsubscribe(some).is_some());
    assert_eq!(bus.subscribe(), Ok(some));
}

#[test]
fn delayed_removal_keeps_the_queue_until_cleanup() {
    let mut bus: EventBus<u32> = EventBus::new();
    let id = bus.subscribe().unwrap();
    bus.mark_for_removal(id);
    bus.push_to_event_queues(3).unwrap();
    assert_eq!(bus.poll(id), Some(3));
    bus.cleanup();
    bus.push_to_event_queues(4).unwrap();
    assert_eq!(bus.poll(id), None);
}

#[test]
fn requests_are_served() {
    let mut bus: EventBus<u32> = EventBus::new();
    let id = match bus.handle(BusRequest::Subscribe, false) {
        BusReply::Subscribed(Ok(id)) => id,
        _ => panic!("expected a subscription"),
    };
    assert!(matches!(bus.handle(BusRequest::PushEvent { event: 8 }, false), BusReply::Pushed(Ok(()))));
    assert!(matches!(bus.handle(BusRequest::Poll { id }, false), BusReply::Polled(Some(8))));
    bus.handle(BusRequest::PushEvent { event: 9 }, false);
    match bus.handle(BusRequest::BatchPoll { id }, false) {
        BusReply::BatchPolled(v) => assert_eq!(v, vec![9]),
        _ => panic!("expected a batch"),
    }
    assert!(matches!(bus.handle(BusRequest::Unsubscribe { id }, true), BusReply::Unsubscribed(None)));
    assert!(matches!(bus.handle(BusRequest::CleanUp, true), BusReply::CleanedUp));
    assert!(matches!(bus.handle(BusRequest::Poll { id }, false), BusReply::Polled(None)));
}

#[test]
fn immediate_unsubscribe_request_returns_queue() {
    let mut bus: EventBus<u32> = EventBus::new();
    let id = bus.subscribe().unwrap();
    bus.push_to_event_queues(1).unwrap();
    match bus.handle(BusRequest::Unsubscribe { id }, false) {
        BusReply::Unsubscribed(Some(q)) => assert_eq!(q.len(), 1),
        _ => panic!("expected the queue back"),
    }
}
