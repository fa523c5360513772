//! Identification of Human Interface Device peripherals.
//!
//! The library holds the rules by which attached devices are enumerated and
//! described: the request-and-reply protocol that walks a device-information
//! set, the decoding of the fixed-capacity text buffers that the platform
//! fills, the parsing of hardware identifiers into vendor id, product id and
//! serial number, and the rendering of the resulting records. It performs no
//! platform call itself; a caller makes each call that the protocol asks for
//! and hands back what the platform answered.

pub mod buffer;
pub mod device;
pub mod enumerate;
pub mod error;
pub mod hex;
pub mod pattern;
pub mod render;
pub mod report;
