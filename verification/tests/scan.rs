use ble_session::error::Error;
use ble_session::event::DiscoveryEvent;
use ble_session::event_bridge::{ScanAction, ScanBridge};
use ble_session::peripheral_id::PeripheralId;
use ble_session::scan::ScanSession;

fn ident(text: &str) -> PeripheralId {
    PeripheralId::new(text.to_string())
}

#[test]
fn start_aborts_when_the_event_stream_cannot_be_subscribed() {
    let r = ScanSession::start(Some(Error::PermissionDenied), None);
    assert!(matches!(r, Err(Error::PermissionDenied)));
}

#[test]
fn start_aborts_when_the_scan_cannot_be_started() {
    let r = ScanSession::start(None, Some(Error::NotConnected));
    assert!(matches!(r, Err(Error::NotConnected)));
}

#[test]
fn started_session_is_armed_with_a_fresh_bridge() {
    let s = ScanSession::start(None, None).unwrap();
    assert!(!s.cancellation.is_cancelled());
    assert!(!s.bridge.exited);
    assert!(!s.bridge.stop_issued);
}

#[test]
fn discovery_events_are_reported_and_others_ignored() {
    let mut s = ScanSession::start(None, None).unwrap();
    let discovered = Some(DiscoveryEvent::Discovered(ident("P1")));
    assert_eq!(
        s.bridge.step(s.cancellation.is_cancelled(), &discovered),
        ScanAction::Report(ident("P1"))
    );
    let updated = Some(DiscoveryEvent::Updated(ident("P2")));
    assert_eq!(
        s.bridge.step(s.cancellation.is_cancelled(), &updated),
        ScanAction::Report(ident("P2"))
    );
    let connected = Some(DiscoveryEvent::ConnectedEvent(ident("P1")));
    assert_eq!(s.bridge.step(s.cancellation.is_cancelled(), &connected), ScanAction::Ignore);
}

#[test]
fn cancelled_scan_stops_exactly_once_before_the_bridge_exits() {
    let mut s = ScanSession::start(None, None).unwrap();
    let ev = Some(DiscoveryEvent::Discovered(ident("P1")));
    assert_eq!(s.bridge.step(s.cancellation.is_cancelled(), &ev), ScanAction::Report(ident("P1")));

    // rapid-fire cancellation: the signal is idempotent
    s.cancel();
    s.cancel();
    s.cancel();

    // the next turn of the loop observes it: one stop, then the loop is over
    let late = Some(DiscoveryEvent::Discovered(ident("P2")));
    assert_eq!(s.bridge.step(s.cancellation.is_cancelled(), &late), ScanAction::StopScanAndExit);
    assert!(s.bridge.exited);
    assert!(s.bridge.stop_issued);
}

#[test]
fn cancellation_is_decided_before_any_event_is_reported() {
    let mut b = ScanBridge::new();
    let ev = Some(DiscoveryEvent::Discovered(ident("P1")));
    assert_eq!(b.step(true, &ev), ScanAction::StopScanAndExit);
}

#[test]
fn a_closed_stream_ends_the_scan_without_teardown() {
    let mut b = ScanBridge::new();
    assert_eq!(b.step(false, &None), ScanAction::ExitQuietly);
    assert!(b.exited);
    assert!(!b.stop_issued);
}
