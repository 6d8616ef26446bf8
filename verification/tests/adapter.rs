use ble_session::adapter::{
    adapter_reports_powered_on, adapter_support_outcome, AdapterHandle, AdapterState, InitStatus,
};
use ble_session::error::Error;

#[test]
fn a_host_with_an_adapter_is_supported() {
    assert_eq!(adapter_support_outcome(1), Ok(true));
    assert_eq!(adapter_support_outcome(3), Ok(true));
}

#[test]
fn a_host_without_an_adapter_is_not_supported() {
    assert!(matches!(adapter_support_outcome(0), Err(Error::NotSupported(_))));
}

#[test]
fn only_a_powered_on_state_counts_as_on() {
    assert!(adapter_reports_powered_on(&Some(AdapterState::PoweredOn)));
    assert!(!adapter_reports_powered_on(&Some(AdapterState::PoweredOff)));
    assert!(!adapter_reports_powered_on(&Some(AdapterState::Unknown)));
    // a failed query counts as off
    assert!(!adapter_reports_powered_on(&None));
}

#[test]
fn initialization_is_recorded_once_and_is_final() {
    let mut h = AdapterHandle::new();
    assert_eq!(h.status, InitStatus::Uninitialized);
    assert!(!h.available());
    h.record_init(true);
    assert_eq!(h.status, InitStatus::Ready);
    assert!(h.available());
}

#[test]
fn a_failed_initialization_leaves_ble_unavailable() {
    let mut h = AdapterHandle::new();
    h.record_init(false);
    assert_eq!(h.status, InitStatus::Unavailable);
    assert!(!h.available());
}
