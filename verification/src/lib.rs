//! Headset battery monitoring: device selection, the HID battery protocol,
//! the reading state machine and the local licence cache.

pub mod devices;
pub mod text;
pub mod protocol;
pub mod reading;
pub mod license;
pub mod ui;
