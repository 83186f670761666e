//! Firmware core of a load-cell dynamometer that speaks the Progressor
//! Bluetooth Low Energy protocol: the wire codec, the device state machine,
//! and the integer side of the HX711 acquisition driver.

pub mod byte_vec;
pub mod hx711;
pub mod little_endian;
pub mod outbox;
pub mod progressor;
pub mod scheduler;
