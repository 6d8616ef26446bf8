use vstd::prelude::*;

verus! {

/// The caller-facing error taxonomy. Host-stack failures are translated into
/// these variants at the boundary, one to one; `Cancelled` is reserved for
/// user-initiated cancellation so that callers can tell it apart from a
/// genuine host failure.
#[derive(Debug, PartialEq, Eq)]
pub enum Error {
    /// The governing cancellation signal fired before the operation resolved.
    Cancelled,
    PermissionDenied,
    DeviceNotFound,
    NotConnected,
    UnexpectedCallback,
    UnexpectedCharacteristic,
    NoSuchCharacteristic,
    /// The operation is not supported on this host, with the reason.
    NotSupported(String),
    /// The operation timed out, with the elapsed time in milliseconds.
    TimedOut(u64),
    /// A textual identifier could not be parsed, with the detail.
    Uuid(String),
    /// A Bluetooth address could not be parsed, with the detail.
    InvalidBDAddr(String),
    /// The host stack reported a runtime fault, with the detail.
    RuntimeError(String),
    /// Any other host-stack failure, with the detail.
    Other(String),
}

impl Clone for Error {
    fn clone(&self) -> (r: Self)
        ensures
            r == self,
    {
        match self {
            Error::Cancelled => Error::Cancelled,
            Error::PermissionDenied => Error::PermissionDenied,
            Error::DeviceNotFound => Error::DeviceNotFound,
            Error::NotConnected => Error::NotConnected,
            Error::UnexpectedCallback => Error::UnexpectedCallback,
            Error::UnexpectedCharacteristic => Error::UnexpectedCharacteristic,
            Error::NoSuchCharacteristic => Error::NoSuchCharacteristic,
            Error::NotSupported(reason) => Error::NotSupported(reason.clone()),
            Error::TimedOut(millis) => Error::TimedOut(*millis),
            Error::Uuid(detail) => Error::Uuid(detail.clone()),
            Error::InvalidBDAddr(detail) => Error::InvalidBDAddr(detail.clone()),
            Error::RuntimeError(detail) => Error::RuntimeError(detail.clone()),
            Error::Other(detail) => Error::Other(detail.clone()),
        }
    }
}

} // verus!
