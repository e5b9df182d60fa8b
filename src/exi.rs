//! The external interface: channels of serial devices.
pub mod channel;
pub mod device;
