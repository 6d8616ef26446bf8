use vstd::prelude::*;
use crate::characteristic::Characteristic;
use crate::uuid::Uuid;

verus! {

/// A GATT service: a group of characteristics a peripheral exposes.
#[derive(Debug, Clone, PartialEq, Eq)]
pub struct Service {
    pub uuid: Uuid,
    pub primary: bool,
    pub characteristics: Vec<Characteristic>,
}

} // verus!
