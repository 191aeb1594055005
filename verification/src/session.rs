//! One open device session: which hardware variant it talks to and the
//! running sequence counter.

use vstd::prelude::*;

verus! {

/// Vendor identifier of the supported mixers.
pub const VID_GOXLR: u16 = 0x1220;

/// Product identifier of the reduced hardware variant.
pub const PID_GOXLR_MINI: u16 = 0x8fe4;

/// Product identifier of the full hardware variant.
pub const PID_GOXLR_FULL: u16 = 0x8fe0;

/// Request code of the outbound control transfer that delivers a command.
pub const REQUEST_COMMAND: u8 = 2;

/// Request code of the inbound control transfer that polls for a response.
pub const REQUEST_RESPONSE: u8 = 3;

/// Largest response that a poll asks for, in bytes.
pub const MAX_RESPONSE_LEN: usize = 1040;

/// Timeout of every control transfer, in milliseconds.
pub const TRANSFER_TIMEOUT_MS: u64 = 1000;

/// Delay before each poll on the full variant, in milliseconds.
pub const SETTLE_DELAY_FULL_MS: u64 = 3;

/// Delay before each poll on the reduced variant, in milliseconds.
pub const SETTLE_DELAY_MINI_MS: u64 = 10;

/// What a session is, as plain values.
pub struct SessionView {
    /// Product identifier read from the device descriptor.
    pub product_id: u16,
    /// Sequence number of the last command that was framed; 0 when fresh or
    /// just reset.
    pub command_count: u16,
}

impl SessionView {
    /// The delay that the device needs before each poll.
    pub open spec fn settle_delay_ms(self) -> u64 {
        if self.product_id == PID_GOXLR_MINI {
            SETTLE_DELAY_MINI_MS
        } else {
            SETTLE_DELAY_FULL_MS
        }
    }
}

/// The protocol state of one open device. It is neither `Clone` nor `Copy`:
/// a request takes the session and hands it back when it ends, so that only
/// one request can be in flight.
#[derive(Debug)]
pub struct GoXLRUSB {
    product_id: u16,
    command_count: u16,
}

impl GoXLRUSB {
    /// The session as plain values.
    pub closed spec fn view(&self) -> SessionView {
        SessionView { product_id: self.product_id, command_count: self.command_count }
    }

    /// A fresh session with the device that has the given product
    /// identifier: its counter is 0.
    pub fn new(product_id: u16) -> (session: GoXLRUSB)
        ensures
            session@ == (SessionView { product_id, command_count: 0 }),
    {
        GoXLRUSB { product_id, command_count: 0 }
    }

    /// Product identifier of the device.
    pub fn product_id(&self) -> (id: u16)
        ensures
            id == self@.product_id,
    {
        self.product_id
    }

    /// Sequence number of the last command that was framed.
    pub fn command_count(&self) -> (count: u16)
        ensures
            count == self@.command_count,
    {
        self.command_count
    }

    /// The delay before each poll: 10 ms on the reduced variant, whose
    /// firmware is slower, and 3 ms otherwise.
    pub fn settle_delay_ms(&self) -> (ms: u64)
        ensures
            ms == self@.settle_delay_ms(),
            ms == SETTLE_DELAY_MINI_MS || ms == SETTLE_DELAY_FULL_MS,
    {
        if self.product_id == PID_GOXLR_MINI {
            SETTLE_DELAY_MINI_MS
        } else {
            SETTLE_DELAY_FULL_MS
        }
    }

    /// The session with its counter set to `count`.
    pub(crate) fn with_count(self, count: u16) -> (session: GoXLRUSB)
        ensures
            session@ == (SessionView { product_id: self@.product_id, command_count: count }),
    {
        GoXLRUSB { product_id: self.product_id, command_count: count }
    }
}

} // verus!
