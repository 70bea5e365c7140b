//! Encoding and decoding of the serial NOR flash command set.
//!
//! A [`Command`] is turned into the byte frame a device expects on the wire
//! (opcode byte, then an optional little-endian 24-bit address), and an opcode
//! byte with an optional address is turned back into a [`Command`].

pub mod address;
pub mod command;
pub mod frame;
pub mod opcode;

pub use address::{Address, Address24Bits, Address32Bits};
pub use command::{Command, ParseError};
pub use frame::Frame;
pub use opcode::CommandOpCode;
