//! Host-side protocol logic for a USB-attached audio mixer: framing of
//! commands, correlation of responses by sequence number, bounded recovery
//! from desynchronisation, and selection of supported devices.

pub mod device;
pub mod error;
pub mod exchange;
pub mod hardtune;
pub mod laws;
pub mod session;
pub mod wire;
