use vstd::prelude::*;
use crate::uuid::Uuid;

verus! {

/// A GATT descriptor: a metadata attribute of a characteristic, addressed by
/// its own UUID together with those of its characteristic and service.
#[derive(Debug, Clone, PartialEq, Eq)]
pub struct Descriptor {
    pub uuid: Uuid,
    pub service: Uuid,
    pub characteristic: Uuid,
}

} // verus!
