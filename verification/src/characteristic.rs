use vstd::prelude::*;
use crate::descriptor::Descriptor;
use crate::uuid::Uuid;

verus! {

/// The property flags of a characteristic (broadcast, read, write,
/// notify, ...), kept as the host stack's raw bit set.
#[derive(Debug, Clone, Copy, PartialEq, Eq, Structural)]
pub struct CharacteristicPropertyFlags {
    pub bits: u8,
}

/// A GATT characteristic: a readable or writable value of a service,
/// addressed by its UUID and that of its service, with its property flags and
/// its descriptors.
#[derive(Debug, Clone, PartialEq, Eq)]
pub struct Characteristic {
    pub uuid: Uuid,
    pub service: Uuid,
    pub properties: CharacteristicPropertyFlags,
    pub descriptors: Vec<Descriptor>,
}

} // verus!
