use vstd::prelude::*;
use std::collections::HashMap;
use crate::peripheral_id::PeripheralId;
use crate::uuid::Uuid;

verus! {

/// The union of the events the host stack emits on its adapter-wide stream.
/// Every event names the peripheral it concerns; each session kind filters
/// the stream down to the subset it cares about.
#[derive(Debug)]
pub enum DiscoveryEvent {
    /// A peripheral appeared in the host's visible set.
    Discovered(PeripheralId),
    /// A visible peripheral's advertisement data changed.
    Updated(PeripheralId),
    /// The host established a connection to the peripheral.
    ConnectedEvent(PeripheralId),
    /// The host lost or closed the connection to the peripheral.
    DisconnectedEvent(PeripheralId),
    /// A manufacturer-data advertisement, keyed by manufacturer id.
    ManufacturerData(PeripheralId, HashMap<u16, Vec<u8>>),
    /// A service-data advertisement, keyed by service UUID.
    ServiceData(PeripheralId, HashMap<Uuid, Vec<u8>>),
    /// The list of services the peripheral advertises.
    ServicesAdvertised(PeripheralId, Vec<Uuid>),
}

impl DiscoveryEvent {
    /// The peripheral the event concerns.
    pub open spec fn spec_peripheral(&self) -> PeripheralId {
        match self {
            DiscoveryEvent::Discovered(id) => *id,
            DiscoveryEvent::Updated(id) => *id,
            DiscoveryEvent::ConnectedEvent(id) => *id,
            DiscoveryEvent::DisconnectedEvent(id) => *id,
            DiscoveryEvent::ManufacturerData(id, _) => *id,
            DiscoveryEvent::ServiceData(id, _) => *id,
            DiscoveryEvent::ServicesAdvertised(id, _) => *id,
        }
    }

}

/// An unsolicited value push from a subscribed characteristic.
#[derive(Debug, PartialEq, Eq)]
pub struct Notification {
    pub characteristic: Uuid,
    pub payload: Vec<u8>,
}

} // verus!
