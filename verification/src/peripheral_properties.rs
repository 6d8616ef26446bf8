use vstd::prelude::*;
use std::collections::HashMap;
use crate::peripheral_id::PeripheralId;
use crate::uuid::Uuid;

verus! {

/// The advertised properties of a peripheral, as the host stack last
/// reported them: its identity, name, signal data, and the advertisement
/// payloads keyed by manufacturer id and service UUID.
#[derive(Debug, Clone, PartialEq, Eq)]
pub struct PeripheralProperties {
    pub id: PeripheralId,
    pub local_name: Option<String>,
    pub tx_power_level: Option<i16>,
    pub rssi: Option<i16>,
    pub manufacturer_data: HashMap<u16, Vec<u8>>,
    pub service_data: HashMap<Uuid, Vec<u8>>,
    pub services: Vec<Uuid>,
    pub class: Option<u32>,
}

impl PeripheralProperties {
    /// Gather a peripheral's reported properties into one record.
    pub fn new(
        id: PeripheralId,
        local_name: Option<String>,
        tx_power_level: Option<i16>,
        rssi: Option<i16>,
        manufacturer_data: HashMap<u16, Vec<u8>>,
        service_data: HashMap<Uuid, Vec<u8>>,
        services: Vec<Uuid>,
        class: Option<u32>,
    ) -> (p: Self)
        ensures
            p.id == id,
            p.local_name == local_name,
            p.tx_power_level == tx_power_level,
            p.rssi == rssi,
            p.manufacturer_data == manufacturer_data,
            p.service_data == service_data,
            p.services == services,
            p.class == class,
    {
        PeripheralProperties {
            id,
            local_name,
            tx_power_level,
            rssi,
            manufacturer_data,
            service_data,
            services,
            class,
        }
    }
}

} // verus!
