//! Protocol engine for the GB-LIVE32 cartridge controller: frame codec,
//! command set, session handshake and the workflows built on them.
//!
//! The engine never touches a serial port itself. It produces the bytes to
//! put on the wire and interprets the bytes that came back, so that every
//! decision of the protocol is a function of plain values.

pub mod codec;
pub mod command;
mod entropy;
pub mod error;
pub mod fleet;
pub mod handshake;
pub mod session;
pub mod workflow;

pub use error::{Gbl32Error, IoFault, ProtocolFault};
pub use session::{Gbl32, Status};
