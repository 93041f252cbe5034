//! Emulation core of a Nintendo Switch Pro Controller bridge.
//!
//! The library holds everything the host console observes on the wire: the
//! bounded byte buffer, the simulated SPI flash table, the controller-state
//! record with its 11-byte status block, the two reply shapes, the request
//! dispatcher, and the HID descriptor blob with the control-transfer
//! classification that serves it. The USB stack, board bring-up and the
//! interrupt handlers around it are ordinary unverified glue that threads
//! the shared state through these calls under a critical section.

pub mod buffer;
pub mod device;
pub mod gamepad;
pub mod hid;
pub mod report;
pub mod response;
pub mod spi;
