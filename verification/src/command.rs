//! The command set: opcode, request payload and expected response length of
//! each command.

use crate::error::{Fault, Gbl32Error, ProtocolFault};
use crate::session::{wire_request, Gbl32, BLOCK_LEN, IMAGE_LEN, PING_LEN};
use vstd::prelude::*;

verus! {

pub const OP_PING: u8 = 0x01;

pub const OP_GET_VERSION: u8 = 0x02;

pub const OP_GET_STATUS: u8 = 0x03;

pub const OP_SET_UNLOCKED: u8 = 0x04;

pub const OP_SET_PASSTHROUGH: u8 = 0x05;

pub const OP_SET_RESET: u8 = 0x06;

pub const OP_READ_BLOCK: u8 = 0x07;

pub const OP_WRITE_BLOCK: u8 = 0x08;

pub const OP_WRITE_ALL: u8 = 0x09;

pub const OP_READ_ALL: u8 = 0x0a;

/// A command with what it carries.
#[derive(Clone, Debug, PartialEq, Eq)]
pub enum Command {
    /// Echo check; carries 8 bytes.
    Ping(Vec<u8>),
    /// Firmware version query.
    GetVersion,
    /// Status query.
    GetStatus,
    /// Enables or disables write-unlock.
    SetUnlocked(bool),
    /// Enables or disables bus passthrough to the target system.
    SetPassthrough(bool),
    /// Asserts or releases the target's reset line.
    SetReset(bool),
    /// Reads the page at this high address byte.
    ReadBlock(u8),
    /// Writes 256 bytes to the page at this high address byte.
    WriteBlock(u8, Vec<u8>),
    /// Arms a bulk write of these 32768 bytes, which follow unframed.
    WriteAll(Vec<u8>),
    /// Arms a bulk read of 32768 unframed bytes.
    ReadAll,
}

/// The byte that stands for a boolean in a request.
pub open spec fn flag_byte(value: bool) -> u8 {
    if value {
        1
    } else {
        0
    }
}

impl Command {
    /// The opcode of the command.
    pub open spec fn opcode_of(&self) -> u8 {
        match *self {
            Command::Ping(_) => OP_PING,
            Command::GetVersion => OP_GET_VERSION,
            Command::GetStatus => OP_GET_STATUS,
            Command::SetUnlocked(_) => OP_SET_UNLOCKED,
            Command::SetPassthrough(_) => OP_SET_PASSTHROUGH,
            Command::SetReset(_) => OP_SET_RESET,
            Command::ReadBlock(_) => OP_READ_BLOCK,
            Command::WriteBlock(_, _) => OP_WRITE_BLOCK,
            Command::WriteAll(_) => OP_WRITE_ALL,
            Command::ReadAll => OP_READ_ALL,
        }
    }

    /// The payload that the framed request carries before the opcode.
    pub open spec fn payload_of(&self) -> Seq<u8> {
        match *self {
            Command::Ping(data) => data@,
            Command::SetUnlocked(value) => seq![flag_byte(value)],
            Command::SetPassthrough(value) => seq![flag_byte(value)],
            Command::SetReset(value) => seq![flag_byte(value)],
            Command::ReadBlock(addr_h) => seq![addr_h],
            Command::WriteBlock(addr_h, data) => seq![addr_h] + data@,
            _ => Seq::<u8>::empty(),
        }
    }

    /// The number of data bytes that a successful response carries.
    pub open spec fn response_len_of(&self) -> usize {
        match *self {
            Command::Ping(_) => PING_LEN,
            Command::GetVersion => 2,
            Command::GetStatus => 3,
            Command::ReadBlock(_) => BLOCK_LEN,
            _ => 0,
        }
    }

    /// The fault of a command that carries the wrong number of bytes.
    pub open spec fn length_fault(&self) -> Option<Fault> {
        match *self {
            Command::Ping(data) if data@.len() != PING_LEN => Some(
                Fault::RequestLength { expected: PING_LEN, received: data@.len() as usize },
            ),
            Command::WriteBlock(_, data) if data@.len() != BLOCK_LEN => Some(
                Fault::RequestLength { expected: BLOCK_LEN, received: data@.len() as usize },
            ),
            Command::WriteAll(data) if data@.len() != IMAGE_LEN => Some(
                Fault::RequestLength { expected: IMAGE_LEN, received: data@.len() as usize },
            ),
            _ => None,
        }
    }

    /// The opcode of the command.
    pub fn opcode(&self) -> (op: u8)
        ensures
            op == self.opcode_of(),
    {
        match self {
            Command::Ping(_) => OP_PING,
            Command::GetVersion => OP_GET_VERSION,
            Command::GetStatus => OP_GET_STATUS,
            Command::SetUnlocked(_) => OP_SET_UNLOCKED,
            Command::SetPassthrough(_) => OP_SET_PASSTHROUGH,
            Command::SetReset(_) => OP_SET_RESET,
            Command::ReadBlock(_) => OP_READ_BLOCK,
            Command::WriteBlock(_, _) => OP_WRITE_BLOCK,
            Command::WriteAll(_) => OP_WRITE_ALL,
            Command::ReadAll => OP_READ_ALL,
        }
    }

    /// The number of data bytes that a successful response carries.
    pub fn response_len(&self) -> (len: usize)
        ensures
            len == self.response_len_of(),
    {
        match self {
            Command::Ping(_) => PING_LEN,
            Command::GetVersion => 2,
            Command::GetStatus => 3,
            Command::ReadBlock(_) => BLOCK_LEN,
            _ => 0,
        }
    }

    /// The payload that the framed request carries before the opcode.
    pub fn payload(&self) -> (bytes: Vec<u8>)
        ensures
            bytes@ == self.payload_of(),
    {
        match self {
            Command::Ping(data) => data.clone(),
            Command::SetUnlocked(value) | Command::SetPassthrough(value) | Command::SetReset(
                value,
            ) => {
                let byte: u8 = if *value {
                    1
                } else {
                    0
                };
                vec![byte]
            },
            Command::ReadBlock(addr_h) => vec![*addr_h],
            Command::WriteBlock(addr_h, data) => {
                let mut bytes: Vec<u8> = Vec::with_capacity(257);
                bytes.push(*addr_h);
                bytes.extend_from_slice(data.as_slice());
                bytes
            },
            _ => Vec::new(),
        }
    }

    /// Checks the number of bytes that the command carries: 8 for a ping,
    /// 256 for a page write, 32768 for a bulk write.
    pub fn check(&self) -> (result: Result<(), Gbl32Error>)
        ensures
            match result {
                Ok(_) => self.length_fault().is_none(),
                Err(e) => self.length_fault() == Some(e@),
            },
    {
        let (expected, received): (usize, usize) = match self {
            Command::Ping(data) => (PING_LEN, data.len()),
            Command::WriteBlock(_, data) => (BLOCK_LEN, data.len()),
            Command::WriteAll(data) => (IMAGE_LEN, data.len()),
            _ => (0, 0),
        };
        if expected != received {
            Err(Gbl32Error::Protocol(ProtocolFault::RequestLength { expected, received }))
        } else {
            Ok(())
        }
    }

    /// The bytes to write for the command: its framed request and the
    /// delimiter, or the fault of a payload of the wrong length.
    pub fn frame(&self) -> (result: Result<Vec<u8>, Gbl32Error>)
        ensures
            match result {
                Ok(wire) => self.length_fault().is_none() && wire@ == wire_request(
                    self.opcode_of(),
                    self.payload_of(),
                ),
                Err(e) => self.length_fault() == Some(e@),
            },
    {
        self.check()?;
        let payload = self.payload();
        Ok(Gbl32::request(self.opcode(), payload.as_slice()))
    }
}

} // verus!
