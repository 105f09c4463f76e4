use imputio::event_bus::EventBusError;
use imputio::matcher::{any_event_matches, event_matches, poll_loop_stops};

#[test]
fn single_event_matching() {
    let is_zero = |x: &usize| *x == 0;
    assert!(event_matches(&Some(0), &is_zero));
    assert!(!event_matches(&Some(3), &is_zero));
    assert!(!event_matches(&None, &is_zero));
}

#[test]
fn batch_matching() {
    let is_beef = |x: &u32| *x == 0xbeef;
    assert!(any_event_matches(&vec![1, 0xbeef, 2], &is_beef));
    assert!(!any_event_matches(&vec![1, 2], &is_beef));
    assert!(!any_event_matches(&vec![], &is_beef));
}

#[test]
fn poll_loop_stop_decision() {
    let accept = |v: &Option<u8>| v.is_some();
    assert!(poll_loop_stops(&Ok(Some(1u8)), &accept));
    assert!(!poll_loop_stops(&Ok(None), &accept));
    assert!(poll_loop_stops(&Err(EventBusError::ChannelSendError), &accept));
}
