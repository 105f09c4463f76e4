use std::sync::atomic::{AtomicBool, Ordering};
use std::sync::Arc;

use imputio::task::{ImputioTaskHeader, ImputioWaker};

#[test]
fn park_and_unpark() {
    let h = ImputioTaskHeader::default();
    assert!(!h.is_parked());
    ImputioWaker::park(&h);
    assert!(h.is_parked());
    ImputioWaker::unpark(&h);
    assert!(!h.is_parked());
}

#[test]
fn wake_without_tracking_always_unparks() {
    let h = ImputioTaskHeader::new();
    ImputioWaker::park(&h);
    assert!(ImputioWaker::wake(&h));
    assert!(!h.is_parked());
}

#[test]
fn tracked_wake_unparks_once() {
    let state = Arc::new(AtomicBool::new(false));
    let h = ImputioTaskHeader::with_state(state.clone());
    ImputioWaker::park(&h);
    assert!(ImputioWaker::wake(&h));
    assert!(!h.is_parked());
    assert!(state.load(Ordering::SeqCst));
    ImputioWaker::park(&h);
    assert!(!ImputioWaker::wake(&h));
    assert!(h.is_parked());
}
