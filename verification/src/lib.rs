//! A safe-boundary layer for a minimal kernel-mode driver: a status-code
//! result adapter, a bounded view over host-owned UTF-16 buffers, the
//! driver-entry lifecycle, and the round-trip protocol a client runs against
//! the exposed device.

pub mod client;
pub mod driver;
pub mod status;
pub mod stream;
pub mod wide;
