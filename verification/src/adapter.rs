use vstd::prelude::*;
use crate::error::Error;

verus! {

/// The power state of the host's Bluetooth adapter, as the host stack
/// reports it.
#[derive(Debug, Clone, Copy, PartialEq, Eq, Structural)]
pub enum AdapterState {
    Unknown,
    PoweredOn,
    PoweredOff,
}

/// Where the process-wide adapter initialization stands. It is attempted at
/// most once; a failure is recorded and is final for the process — BLE is
/// then simply unavailable, it is not retried.
#[derive(Debug, Clone, Copy, PartialEq, Eq, Structural)]
pub enum InitStatus {
    Uninitialized,
    Ready,
    Unavailable,
}

/// The process-wide handle to the BLE adapter capability: an explicit,
/// inspectable record of the one lazy initialization attempt.
pub struct AdapterHandle {
    pub status: InitStatus,
}

impl AdapterHandle {
    /// Before anything has asked for the adapter.
    pub fn new() -> (h: Self)
        ensures
            h.status == InitStatus::Uninitialized,
    {
        AdapterHandle { status: InitStatus::Uninitialized }
    }

    /// Record the outcome of the single initialization attempt. It can be
    /// recorded only once: afterwards the handle is `Ready` or `Unavailable`
    /// for the rest of the process's life.
    pub fn record_init(&mut self, ok: bool)
        requires
            old(self).status == InitStatus::Uninitialized,
        ensures
            ok ==> final(self).status == InitStatus::Ready,
            !ok ==> final(self).status == InitStatus::Unavailable,
    {
        if ok {
            self.status = InitStatus::Ready;
        } else {
            self.status = InitStatus::Unavailable;
        }
    }

    /// Whether the adapter capability is usable.
    pub fn available(&self) -> (b: bool)
        ensures
            b == (self.status == InitStatus::Ready),
    {
        match self.status {
            InitStatus::Ready => true,
            _ => false,
        }
    }
}

/// Whether a power-state query says the adapter is on: `None` — the query
/// failed — and every state other than `PoweredOn` count as off.
pub fn adapter_reports_powered_on(state: &Option<AdapterState>) -> (b: bool)
    ensures
        b == (*state == Some(AdapterState::PoweredOn)),
{
    match state {
        Some(AdapterState::PoweredOn) => true,
        _ => false,
    }
}

/// Whether this host supports BLE, judged from how many adapters its manager
/// lists: at least one means supported, none means the capability is missing
/// and is reported as such.
pub fn adapter_support_outcome(adapter_count: usize) -> (r: Result<bool, Error>)
    ensures
        adapter_count > 0 ==> r == Ok::<bool, Error>(true),
        adapter_count == 0 ==> (r matches Err(e) && e matches Error::NotSupported(_)),
{
    if adapter_count > 0 {
        Ok(true)
    } else {
        Err(Error::NotSupported("Unable to get adapter".to_owned()))
    }
}

} // verus!
