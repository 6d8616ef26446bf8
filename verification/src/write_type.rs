use vstd::prelude::*;

verus! {

/// How a characteristic write is performed: with a response from the
/// peripheral, or fire-and-forget.
#[derive(Debug, Clone, Copy, PartialEq, Eq, Structural)]
pub enum WriteType {
    WithResponse,
    WithoutResponse,
}

} // verus!
