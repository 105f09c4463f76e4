use imputio::priority::{Priority, NUM_QUEUES};

#[test]
fn priority_queue_indices() {
    assert_eq!(Priority::High.index(), 1);
    assert_eq!(Priority::Medium.index(), 2);
    assert_eq!(Priority::Low.index(), 3);
    assert_eq!(Priority::BestEffort.index(), 4);
    assert_eq!(NUM_QUEUES, 5);
}

#[test]
fn priority_default_is_low() {
    assert_eq!(Priority::default(), Priority::Low);
}

#[test]
fn priority_from_index_round_trips() {
    for p in [Priority::High, Priority::Medium, Priority::Low, Priority::BestEffort] {
        assert_eq!(Priority::from_index(p.index()), Some(p));
    }
    assert_eq!(Priority::from_index(0), None);
    assert_eq!(Priority::from_index(5), None);
}
