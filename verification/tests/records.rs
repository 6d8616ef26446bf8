use std::collections::HashMap;

use ble_session::characteristic::{Characteristic, CharacteristicPropertyFlags};
use ble_session::descriptor::Descriptor;
use ble_session::event::DiscoveryEvent;
use ble_session::peripheral_id::PeripheralId;
use ble_session::peripheral_properties::PeripheralProperties;
use ble_session::service::Service;
use ble_session::uuid::Uuid;
use ble_session::write_type::WriteType;

fn uuid(text: &str) -> Uuid {
    Uuid::new(text.to_string()).unwrap()
}

#[test]
fn gatt_records_hold_their_parts() {
    let descriptor = Descriptor {
        uuid: uuid("00002902-0000-1000-8000-00805f9b34fb"),
        service: uuid("0000180d-0000-1000-8000-00805f9b34fb"),
        characteristic: uuid("00002a37-0000-1000-8000-00805f9b34fb"),
    };
    let characteristic = Characteristic {
        uuid: uuid("00002a37-0000-1000-8000-00805f9b34fb"),
        service: uuid("0000180d-0000-1000-8000-00805f9b34fb"),
        properties: CharacteristicPropertyFlags { bits: 0x10 },
        descriptors: vec![descriptor.clone()],
    };
    let service = Service {
        uuid: uuid("0000180d-0000-1000-8000-00805f9b34fb"),
        primary: true,
        characteristics: vec![characteristic.clone()],
    };
    assert_eq!(service.characteristics[0], characteristic);
    assert_eq!(service.characteristics[0].descriptors[0], descriptor);
    assert_eq!(characteristic.properties.bits, 0x10);
    assert_ne!(WriteType::WithResponse, WriteType::WithoutResponse);
}

#[test]
fn peripheral_properties_gather_the_reported_values() {
    let id = PeripheralId::new("P1".to_string());
    let mut manufacturer_data: HashMap<u16, Vec<u8>> = HashMap::new();
    manufacturer_data.insert(0x004c, vec![0x02, 0x15]);
    let mut service_data: HashMap<Uuid, Vec<u8>> = HashMap::new();
    service_data.insert(uuid("0000180d-0000-1000-8000-00805f9b34fb"), vec![0x2a]);

    let p = PeripheralProperties::new(
        id.clone(),
        Some("Heart Monitor".to_string()),
        Some(4),
        Some(-60),
        manufacturer_data.clone(),
        service_data.clone(),
        vec![uuid("0000180d-0000-1000-8000-00805f9b34fb")],
        Some(7936),
    );
    assert_eq!(p.id, id);
    assert_eq!(p.local_name.as_deref(), Some("Heart Monitor"));
    assert_eq!(p.tx_power_level, Some(4));
    assert_eq!(p.rssi, Some(-60));
    assert_eq!(p.manufacturer_data, manufacturer_data);
    assert_eq!(p.service_data, service_data);
    assert_eq!(p.services.len(), 1);
    assert_eq!(p.class, Some(7936));
}

#[test]
fn every_event_kind_names_its_peripheral() {
    let id = PeripheralId::new("P1".to_string());
    let events = vec![
        DiscoveryEvent::Discovered(id.clone()),
        DiscoveryEvent::Updated(id.clone()),
        DiscoveryEvent::ConnectedEvent(id.clone()),
        DiscoveryEvent::DisconnectedEvent(id.clone()),
        DiscoveryEvent::ManufacturerData(id.clone(), HashMap::new()),
        DiscoveryEvent::ServiceData(id.clone(), HashMap::new()),
        DiscoveryEvent::ServicesAdvertised(id.clone(), Vec::new()),
    ];
    for ev in events {
        let named = match ev {
            DiscoveryEvent::Discovered(i) => i,
            DiscoveryEvent::Updated(i) => i,
            DiscoveryEvent::ConnectedEvent(i) => i,
            DiscoveryEvent::DisconnectedEvent(i) => i,
            DiscoveryEvent::ManufacturerData(i, _) => i,
            DiscoveryEvent::ServiceData(i, _) => i,
            DiscoveryEvent::ServicesAdvertised(i, _) => i,
        };
        assert!(named.same_identity(&id));
    }
}
