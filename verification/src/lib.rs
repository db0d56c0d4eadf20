//! Core logic of a bridge between a PlayStation-family controller and a
//! virtual Xbox-360 pad: the HID report codec, the output-frame encoder
//! with its checksums, the discrete part of the remapping engine and the
//! decisions of the device session.
//!
//! Every function here is verified against its contract, but for one call
//! into the standard library's case mapping, whose contract is taken on
//! trust. Analog values are carried as integer numerators, so that no
//! floating-point arithmetic is needed.

pub mod crc;
pub mod mapping;
pub mod decode;
pub mod hidhide;
pub mod output;
pub mod probe;
pub mod remap;
pub mod session;
