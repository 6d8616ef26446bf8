use ble_session::cancellation_handle::CancellationHandle;

#[test]
fn fresh_handle_is_armed() {
    let h = CancellationHandle::new();
    assert!(!h.is_cancelled());
}

#[test]
fn cancel_fires_and_stays_fired() {
    let mut h = CancellationHandle::new();
    h.cancel();
    assert!(h.is_cancelled());
    // repeated observation does not consume the signal
    assert!(h.is_cancelled());
}

#[test]
fn cancel_is_idempotent() {
    let mut h = CancellationHandle::new();
    h.cancel();
    h.cancel();
    h.cancel();
    assert!(h.is_cancelled());
}
