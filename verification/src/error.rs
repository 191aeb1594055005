//! Failures that a request can end in.

use vstd::prelude::*;

verus! {

/// Why a single control transfer failed, as the USB stack reports it.
#[derive(Clone, Copy, Debug, PartialEq, Eq, Structural)]
pub enum TransportFault {
    /// Input or output error.
    Io,
    /// Invalid parameter.
    InvalidParam,
    /// Access denied.
    Access,
    /// The device is gone.
    NoDevice,
    /// Entity not found.
    NotFound,
    /// Resource busy.
    Busy,
    /// The transfer timed out.
    Timeout,
    /// Overflow.
    Overflow,
    /// The endpoint stalled. On a poll this means that no response is ready.
    Pipe,
    /// A system call was interrupted.
    Interrupted,
    /// Insufficient memory.
    NoMem,
    /// Not supported on this platform.
    NotSupported,
    /// The device returned a malformed descriptor.
    BadDescriptor,
    /// Any other failure.
    Other,
}

/// The ways in which opening a session or executing a command fails.
#[derive(Clone, Copy, Debug, PartialEq, Eq, Structural)]
pub enum RequestError {
    /// No attached device sits at the requested bus and address.
    DeviceNotFound,
    /// A control transfer failed for a reason other than "not ready".
    TransportError(TransportFault),
    /// Every poll attempt found the device not ready.
    ResponseTimeout,
    /// The response is shorter than a header, or its body is not as long as
    /// its header declares.
    MalformedResponse,
    /// The sequence numbers disagreed again after a resynchronisation.
    ResyncExhausted,
    /// The body does not fit the 16-bit length field of the header.
    BodyTooLarge,
}

} // verus!
