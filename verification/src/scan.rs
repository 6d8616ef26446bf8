use vstd::prelude::*;
use crate::cancellation_handle::CancellationHandle;
use crate::error::Error;
use crate::event_bridge::ScanBridge;
use crate::peripheral_properties::PeripheralProperties;

verus! {

/// The foreign observer of a scan session. The session's driver invokes
/// `update` once per reported discovery event, in the order the host stack
/// produced the events, and never after the session's cancellation signal has
/// been observed.
pub trait ScanCallback {
    /// A peripheral was discovered or its advertisement changed.
    fn update(&self, peripheral: PeripheralProperties);
}

/// One active discovery operation: its cancellation signal and its event
/// bridge. The bridge stops the host's scan when the signal fires.
pub struct ScanSession {
    pub cancellation: CancellationHandle,
    pub bridge: ScanBridge,
}

impl ScanSession {
    /// Decide whether a scan session comes up, from the outcomes of its two
    /// host-side preparations: subscribing to the event stream, then starting
    /// the scan. Either failure aborts creation with that failure — a bridge
    /// is never spawned over a scan that did not start — and only when both
    /// succeeded does a session exist, armed and with a fresh bridge.
    pub fn start(subscribe_failure: Option<Error>, scan_failure: Option<Error>) -> (r: Result<
        ScanSession,
        Error,
    >)
        ensures
            subscribe_failure matches Some(e) ==> r == Err::<ScanSession, Error>(e),
            subscribe_failure is None ==> (scan_failure matches Some(e) ==> r == Err::<
                ScanSession,
                Error,
            >(e)),
            subscribe_failure is None && scan_failure is None ==> (r matches Ok(s)
                && !s.cancellation.spec_cancelled() && !s.bridge.exited && !s.bridge.stop_issued),
    {
        match subscribe_failure {
            Some(e) => Err(e),
            None => match scan_failure {
                Some(e) => Err(e),
                None => Ok(
                    ScanSession { cancellation: CancellationHandle::new(), bridge: ScanBridge::new() },
                ),
            },
        }
    }

    /// Fire the session's cancellation signal; the bridge observes it, stops
    /// the host's scan once, and exits.
    pub fn cancel(&mut self)
        ensures
            final(self).cancellation.spec_cancelled(),
            final(self).bridge == old(self).bridge,
    {
        self.cancellation.cancel();
    }
}

} // verus!
