//! Session management for Bluetooth Low Energy peripherals.
//!
//! The crate models the cancellable core of a BLE session layer: a
//! level-triggered cancellation signal, an opaque serializable peripheral
//! identity, the connect/recovery state machine of a peripheral session, and
//! the event-bridge loops that multiplex host-stack events against
//! cancellation. Each loop body is a verified step function; an unverified
//! driver performs the returned actions (start or stop a scan, issue a
//! connect, invoke an observer callback) and feeds the outcomes back in.

pub mod adapter;
pub mod cancellation_handle;
pub mod characteristic;
pub mod descriptor;
pub mod error;
pub mod event;
pub mod event_bridge;
pub mod peripheral;
pub mod peripheral_id;
pub mod peripheral_properties;
pub mod scan;
pub mod service;
pub mod uuid;
pub mod write_type;
