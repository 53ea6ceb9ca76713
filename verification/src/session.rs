//! The session: one request, one response, and the commands built on that.
//!
//! A request is `payload || opcode`, framed and followed by the delimiter. A
//! response, once unframed, is `data || result || opcode`.

use crate::codec::{cobs_decoding, cobs_encoding, decode, encode, DELIMITER};
use crate::command::{
    OP_GET_STATUS, OP_GET_VERSION, OP_PING, OP_READ_ALL, OP_READ_BLOCK, OP_SET_PASSTHROUGH,
    OP_SET_RESET, OP_SET_UNLOCKED, OP_WRITE_ALL, OP_WRITE_BLOCK,
};
use crate::error::{Fault, Gbl32Error, ProtocolFault};
use vstd::prelude::*;
use vstd::slice::slice_to_vec;

verus! {

/// Result code of a successful response: the data is the real payload.
pub const RESULT_OK: u8 = 0xFF;

/// Result code of an application error: the data is a diagnostic message.
pub const RESULT_ERROR: u8 = 0xFE;

/// Number of bytes of a full memory image, and of a bulk transfer.
pub const IMAGE_LEN: usize = 32768;

/// Number of bytes of one page.
pub const BLOCK_LEN: usize = 256;

/// Number of bytes that a ping carries.
pub const PING_LEN: usize = 8;

/// The text that `String::from_utf8_lossy` makes of a byte string.
pub uninterp spec fn lossy_utf8(bytes: Seq<u8>) -> Seq<char>;

/// Calls `String::from_utf8_lossy`, which replaces each invalid sequence.
/// Trusted: the result is the named text of the bytes.
#[verifier::external_body]
fn lossy_text(bytes: &[u8]) -> (text: String)
    ensures
        text@ == lossy_utf8(bytes@),
{
    String::from_utf8_lossy(bytes).into_owned()
}

/// The three switches of the device.
#[derive(Debug, Copy, Clone, Eq, PartialEq)]
pub struct Status {
    pub unlocked: bool,
    pub passthrough: bool,
    pub reset: bool,
}

/// The bytes that go on the wire for a request: the framed `msg || cmd`,
/// then the delimiter.
pub open spec fn wire_request(cmd: u8, msg: Seq<u8>) -> Seq<u8> {
    cobs_encoding(msg.push(cmd)).push(DELIMITER)
}

/// The frame inside a line that was read up to the delimiter: the line
/// without its last byte.
pub open spec fn frame_of(line: Seq<u8>) -> Seq<u8> {
    if line.len() == 0 {
        line
    } else {
        line.drop_last()
    }
}

/// What an unframed response means to a request with opcode `cmd` that
/// expects `expected_len` data bytes: the data, or the fault.
pub open spec fn response_outcome(cmd: u8, decoded: Seq<u8>, expected_len: usize) -> Result<
    Seq<u8>,
    Fault,
> {
    if decoded.len() == 0 {
        Err(Fault::MissingCommand)
    } else if decoded.last() != cmd {
        Err(Fault::CommandMismatch { received: decoded.last(), expected: cmd })
    } else if decoded.len() == 1 {
        Err(Fault::MissingResult)
    } else {
        let result = decoded[decoded.len() - 2];
        let data = decoded.take(decoded.len() - 2);
        if result == RESULT_OK {
            if data.len() == expected_len {
                Ok(data)
            } else {
                Err(Fault::ResponseLength { expected: expected_len, received: data.len() as usize })
            }
        } else if result == RESULT_ERROR {
            Err(Fault::Device(lossy_utf8(data)))
        } else {
            Err(Fault::ResultCode(result))
        }
    }
}

/// What a line read from the connection means to a request: the frame is
/// decoded first, then read as a response.
pub open spec fn exchange_outcome(cmd: u8, line: Seq<u8>, expected_len: usize) -> Result<
    Seq<u8>,
    Fault,
> {
    match cobs_decoding(frame_of(line)) {
        None => Err(Fault::Decode),
        Some(decoded) => response_outcome(cmd, decoded, expected_len),
    }
}

/// Whether a result agrees with an outcome: both succeed, or the error is
/// the fault of the outcome.
pub open spec fn outcome_matches<T>(
    result: Result<T, Gbl32Error>,
    outcome: Result<Seq<u8>, Fault>,
) -> bool {
    match (result, outcome) {
        (Ok(_), Ok(_)) => true,
        (Err(e), Err(fault)) => e@ == fault,
        _ => false,
    }
}

/// A session with one device. It holds the data of the last response.
pub struct Gbl32 {
    read_buffer: Vec<u8>,
}

impl Gbl32 {
    /// The data bytes of the last successful response; empty after a failure.
    pub closed spec fn data(&self) -> Seq<u8> {
        self.read_buffer@
    }

    /// A session that has seen no response yet. Callers get a session from
    /// the handshake.
    pub(crate) fn new() -> (session: Gbl32)
        ensures
            session.data() == Seq::<u8>::empty(),
    {
        Gbl32 { read_buffer: Vec::new() }
    }

    /// The data bytes of the last successful response.
    pub fn response(&self) -> (data: &Vec<u8>)
        ensures
            data@ == self.data(),
    {
        &self.read_buffer
    }

    /// Builds the bytes to write for a request: `msg || cmd`, framed, then
    /// the delimiter.
    pub fn request(cmd: u8, msg: &[u8]) -> (wire: Vec<u8>)
        ensures
            wire@ == wire_request(cmd, msg@),
            wire@.last() == DELIMITER,
            crate::codec::delimiter_free(wire@.drop_last()),
            cobs_decoding(frame_of(wire@)) == Some(msg@.push(cmd)),
    {
        let mut payload = slice_to_vec(msg);
        payload.push(cmd);
        let mut wire = encode(payload.as_slice());
        proof {
            assert(wire@.push(DELIMITER).drop_last() =~= wire@);
        }
        wire.push(DELIMITER);
        wire
    }

    /// Reads an unframed response to the request with opcode `cmd`: checks
    /// the trailing opcode, then the result code, then the length of the
    /// data, which becomes the session's data.
    pub fn read_response(&mut self, cmd: u8, decoded: Vec<u8>, expected_len: usize) -> (result:
        Result<(), Gbl32Error>)
        ensures
            outcome_matches(result, response_outcome(cmd, decoded@, expected_len)),
            match response_outcome(cmd, decoded@, expected_len) {
                Ok(data) => final(self).data() == data,
                Err(_) => final(self).data() == Seq::<u8>::empty(),
            },
    {
        let mut buffer = decoded;
        self.read_buffer = Vec::new();
        let response_cmd = buffer.pop();
        let response_result = buffer.pop();
        match response_cmd {
            Some(received) => {
                if received != cmd {
                    return Err(
                        Gbl32Error::Protocol(
                            ProtocolFault::CommandMismatch { received, expected: cmd },
                        ),
                    );
                }
            },
            None => {
                return Err(Gbl32Error::Protocol(ProtocolFault::MissingCommand));
            },
        }
        match response_result {
            Some(code) => {
                proof {
                    assert(buffer@ =~= decoded@.take(decoded@.len() - 2));
                }
                if code == RESULT_OK {
                    let received = buffer.len();
                    if received == expected_len {
                        self.read_buffer = buffer;
                        Ok(())
                    } else {
                        Err(
                            Gbl32Error::Protocol(
                                ProtocolFault::ResponseLength { expected: expected_len, received },
                            ),
                        )
                    }
                } else if code == RESULT_ERROR {
                    Err(Gbl32Error::Protocol(ProtocolFault::Device(lossy_text(buffer.as_slice()))))
                } else {
                    Err(Gbl32Error::Protocol(ProtocolFault::ResultCode(code)))
                }
            },
            None => Err(Gbl32Error::Protocol(ProtocolFault::MissingResult)),
        }
    }

    /// Reads the line that answered the request with opcode `cmd`: drops the
    /// delimiter, decodes the frame and reads the response.
    pub fn request_response(&mut self, cmd: u8, line: Vec<u8>, expected_len: usize) -> (result:
        Result<(), Gbl32Error>)
        ensures
            outcome_matches(result, exchange_outcome(cmd, line@, expected_len)),
            match exchange_outcome(cmd, line@, expected_len) {
                Ok(data) => final(self).data() == data,
                Err(_) => final(self).data() == Seq::<u8>::empty(),
            },
    {
        let mut frame = line;
        frame.pop();
        match decode(frame) {
            Ok(decoded) => self.read_response(cmd, decoded, expected_len),
            Err(e) => {
                self.read_buffer = Vec::new();
                Err(e)
            },
        }
    }

    /// Reads the answer to a ping that carried `data`: tells whether the
    /// device echoed the bytes. A ping carries exactly 8 bytes.
    pub fn ping(&mut self, data: &[u8], line: Vec<u8>) -> (result: Result<bool, Gbl32Error>)
        ensures
            match result {
                Ok(echo) => data@.len() == PING_LEN && exchange_outcome(OP_PING, line@, PING_LEN)
                    == Ok::<Seq<u8>, Fault>(final(self).data()) && echo == (final(self).data()
                    == data@),
                Err(e) => e@ == ping_fault(data@, line@),
            },
            result.is_ok() <==> data@.len() == PING_LEN && exchange_outcome(
                OP_PING,
                line@,
                PING_LEN,
            ).is_ok(),
            data@.len() != PING_LEN ==> *final(self) == *old(self),
            data@.len() == PING_LEN && result.is_err() ==> final(self).data() == Seq::<u8>::empty(),
    {
        if data.len() != PING_LEN {
            return Err(
                Gbl32Error::Protocol(
                    ProtocolFault::RequestLength { expected: PING_LEN, received: data.len() },
                ),
            );
        }
        self.request_response(OP_PING, line, PING_LEN)?;
        Ok(same_bytes(self.read_buffer.as_slice(), data))
    }

    /// Reads the answer to a version query: major and minor firmware version.
    pub fn get_version(&mut self, line: Vec<u8>) -> (result: Result<(u8, u8), Gbl32Error>)
        ensures
            match (result, exchange_outcome(OP_GET_VERSION, line@, 2)) {
                (Ok(version), Ok(data)) => version == (data[0], data[1]) && final(self).data()
                    == data,
                (Err(e), Err(fault)) => e@ == fault && final(self).data() == Seq::<u8>::empty(),
                _ => false,
            },
    {
        self.request_response(OP_GET_VERSION, line, 2)?;
        Ok((self.read_buffer[0], self.read_buffer[1]))
    }

    /// Reads the answer to a status query: each switch is on where its byte
    /// is not zero.
    pub fn get_status(&mut self, line: Vec<u8>) -> (result: Result<Status, Gbl32Error>)
        ensures
            match (result, exchange_outcome(OP_GET_STATUS, line@, 3)) {
                (Ok(status), Ok(data)) => status == status_of(data) && final(self).data() == data,
                (Err(e), Err(fault)) => e@ == fault && final(self).data() == Seq::<u8>::empty(),
                _ => false,
            },
    {
        self.request_response(OP_GET_STATUS, line, 3)?;
        Ok(
            Status {
                unlocked: self.read_buffer[0] != 0x00,
                passthrough: self.read_buffer[1] != 0x00,
                reset: self.read_buffer[2] != 0x00,
            },
        )
    }

    /// Reads the acknowledgement of a change of the write-unlock switch.
    pub fn set_unlocked(&mut self, line: Vec<u8>) -> (result: Result<(), Gbl32Error>)
        ensures
            outcome_matches(result, exchange_outcome(OP_SET_UNLOCKED, line@, 0)),
            final(self).data() == Seq::<u8>::empty(),
    {
        self.request_response(OP_SET_UNLOCKED, line, 0)
    }

    /// Reads the acknowledgement of a change of the passthrough switch.
    pub fn set_passthrough(&mut self, line: Vec<u8>) -> (result: Result<(), Gbl32Error>)
        ensures
            outcome_matches(result, exchange_outcome(OP_SET_PASSTHROUGH, line@, 0)),
            final(self).data() == Seq::<u8>::empty(),
    {
        self.request_response(OP_SET_PASSTHROUGH, line, 0)
    }

    /// Reads the acknowledgement of a change of the reset line.
    pub fn set_reset(&mut self, line: Vec<u8>) -> (result: Result<(), Gbl32Error>)
        ensures
            outcome_matches(result, exchange_outcome(OP_SET_RESET, line@, 0)),
            final(self).data() == Seq::<u8>::empty(),
    {
        self.request_response(OP_SET_RESET, line, 0)
    }

    /// Reads the answer to a page read: the 256 bytes of the page.
    pub fn read_block(&mut self, line: Vec<u8>) -> (result: Result<Vec<u8>, Gbl32Error>)
        ensures
            match (result, exchange_outcome(OP_READ_BLOCK, line@, BLOCK_LEN)) {
                (Ok(page), Ok(data)) => page@ == data && final(self).data() == data,
                (Err(e), Err(fault)) => e@ == fault && final(self).data() == Seq::<u8>::empty(),
                _ => false,
            },
    {
        self.request_response(OP_READ_BLOCK, line, BLOCK_LEN)?;
        Ok(slice_to_vec(self.read_buffer.as_slice()))
    }

    /// Reads the acknowledgement of a page write of `data`, which must be
    /// exactly 256 bytes.
    pub fn write_block(&mut self, data: &[u8], line: Vec<u8>) -> (result: Result<(), Gbl32Error>)
        ensures
            match result {
                Ok(_) => data@.len() == BLOCK_LEN && exchange_outcome(OP_WRITE_BLOCK, line@, 0)
                    is Ok,
                Err(e) => e@ == sized_fault(OP_WRITE_BLOCK, BLOCK_LEN, data@, line@),
            },
            result.is_ok() <==> data@.len() == BLOCK_LEN && exchange_outcome(
                OP_WRITE_BLOCK,
                line@,
                0,
            ).is_ok(),
            data@.len() != BLOCK_LEN ==> *final(self) == *old(self),
            data@.len() == BLOCK_LEN ==> final(self).data() == Seq::<u8>::empty(),
    {
        if data.len() != BLOCK_LEN {
            return Err(
                Gbl32Error::Protocol(
                    ProtocolFault::RequestLength { expected: BLOCK_LEN, received: data.len() },
                ),
            );
        }
        self.request_response(OP_WRITE_BLOCK, line, 0)
    }

    /// Reads the acknowledgement that arms a bulk write of `data`, which must
    /// be exactly 32768 bytes. After `Ok` the caller writes exactly these
    /// bytes, unframed, and flushes.
    pub fn write_all(&mut self, data: &[u8], line: Vec<u8>) -> (result: Result<(), Gbl32Error>)
        ensures
            match result {
                Ok(_) => data@.len() == IMAGE_LEN && exchange_outcome(OP_WRITE_ALL, line@, 0)
                    is Ok,
                Err(e) => e@ == sized_fault(OP_WRITE_ALL, IMAGE_LEN, data@, line@),
            },
            result.is_ok() <==> data@.len() == IMAGE_LEN && exchange_outcome(
                OP_WRITE_ALL,
                line@,
                0,
            ).is_ok(),
            data@.len() != IMAGE_LEN ==> *final(self) == *old(self),
            data@.len() == IMAGE_LEN ==> final(self).data() == Seq::<u8>::empty(),
    {
        if data.len() != IMAGE_LEN {
            return Err(
                Gbl32Error::Protocol(
                    ProtocolFault::RequestLength { expected: IMAGE_LEN, received: data.len() },
                ),
            );
        }
        self.request_response(OP_WRITE_ALL, line, 0)
    }

    /// Reads the acknowledgement that arms a bulk read, and gives the number
    /// of unframed bytes that the caller must then read: exactly 32768.
    pub fn read_all(&mut self, line: Vec<u8>) -> (result: Result<usize, Gbl32Error>)
        ensures
            match (result, exchange_outcome(OP_READ_ALL, line@, 0)) {
                (Ok(count), Ok(_)) => count == IMAGE_LEN,
                (Err(e), Err(fault)) => e@ == fault,
                _ => false,
            },
            final(self).data() == Seq::<u8>::empty(),
    {
        self.request_response(OP_READ_ALL, line, 0)?;
        Ok(IMAGE_LEN)
    }
}

/// A response laid out as `data || 0xFF || opcode`, with as many data bytes
/// as the request expects, gives exactly the data.
pub proof fn lemma_success_response(cmd: u8, data: Seq<u8>, expected_len: usize)
    requires
        data.len() == expected_len,
    ensures
        response_outcome(cmd, data.push(RESULT_OK).push(cmd), expected_len) == Ok::<
            Seq<u8>,
            Fault,
        >(data),
{
    let decoded = data.push(RESULT_OK).push(cmd);
    assert(decoded.take(decoded.len() - 2) =~= data);
}

/// A response that ends in another opcode than the request is a mismatch
/// that names both opcodes, whatever else the response holds.
pub proof fn lemma_opcode_mismatch(cmd: u8, received: u8, body: Seq<u8>, expected_len: usize)
    requires
        received != cmd,
    ensures
        response_outcome(cmd, body.push(received), expected_len) == Err::<Seq<u8>, Fault>(
            Fault::CommandMismatch { received, expected: cmd },
        ),
{
}

/// A response laid out as `message || 0xFE || opcode` is the device's
/// application error with that message, and any other result code but 0xFF
/// is reported as such.
pub proof fn lemma_failure_response(cmd: u8, code: u8, data: Seq<u8>, expected_len: usize)
    requires
        code != RESULT_OK,
    ensures
        response_outcome(cmd, data.push(code).push(cmd), expected_len) == Err::<Seq<u8>, Fault>(
            if code == RESULT_ERROR {
                Fault::Device(lossy_utf8(data))
            } else {
                Fault::ResultCode(code)
            },
        ),
{
    let decoded = data.push(code).push(cmd);
    assert(decoded.take(decoded.len() - 2) =~= data);
}

/// The status that three data bytes stand for.
pub open spec fn status_of(data: Seq<u8>) -> Status {
    Status { unlocked: data[0] != 0, passthrough: data[1] != 0, reset: data[2] != 0 }
}

/// The fault of a command whose payload must have `len` bytes: the wrong
/// length first, else the fault of the exchange.
pub open spec fn sized_fault(cmd: u8, len: usize, data: Seq<u8>, line: Seq<u8>) -> Fault {
    if data.len() != len {
        Fault::RequestLength { expected: len, received: data.len() as usize }
    } else {
        match exchange_outcome(cmd, line, 0) {
            Err(fault) => fault,
            Ok(_) => arbitrary(),
        }
    }
}

/// The fault of a ping: the wrong length first, else the fault of the
/// exchange.
pub open spec fn ping_fault(data: Seq<u8>, line: Seq<u8>) -> Fault {
    if data.len() != PING_LEN {
        Fault::RequestLength { expected: PING_LEN, received: data.len() as usize }
    } else {
        match exchange_outcome(OP_PING, line, PING_LEN) {
            Err(fault) => fault,
            Ok(_) => arbitrary(),
        }
    }
}

/// Index of the first position at which two byte strings differ, among the
/// positions that both have.
pub open spec fn is_first_mismatch(a: Seq<u8>, b: Seq<u8>, index: int) -> bool {
    &&& 0 <= index < a.len()
    &&& index < b.len()
    &&& a[index] != b[index]
    &&& forall|j: int| 0 <= j < index ==> a[j] == b[j]
}

/// The first position at which two byte strings differ, if there is one
/// among the positions that both have.
pub open spec fn mismatch_of(a: Seq<u8>, b: Seq<u8>) -> Option<int> {
    if exists|i: int| is_first_mismatch(a, b, i) {
        Some(choose|i: int| is_first_mismatch(a, b, i))
    } else {
        None
    }
}

/// Two byte strings have at most one first mismatch.
pub proof fn lemma_first_mismatch_unique(a: Seq<u8>, b: Seq<u8>, i: int, j: int)
    requires
        is_first_mismatch(a, b, i),
        is_first_mismatch(a, b, j),
    ensures
        i == j,
{
    if i < j {
        assert(a[i] == b[i]);
    } else if j < i {
        assert(a[j] == b[j]);
    }
}

/// Finds the first position at which two byte strings differ, among the
/// positions that both have.
pub fn first_mismatch(a: &[u8], b: &[u8]) -> (found: Option<usize>)
    ensures
        match found {
            Some(index) => is_first_mismatch(a@, b@, index as int) && mismatch_of(a@, b@) == Some(
                index as int,
            ),
            None => mismatch_of(a@, b@).is_none() && forall|j: int|
                0 <= j < a@.len() && j < b@.len() ==> a@[j] == b@[j],
        },
{
    let mut index: usize = 0;
    while index < a.len() && index < b.len()
        invariant
            forall|j: int| 0 <= j < index ==> a@[j] == b@[j],
        decreases a@.len() - index,
    {
        if a[index] != b[index] {
            proof {
                let chosen = choose|i: int| is_first_mismatch(a@, b@, i);
                lemma_first_mismatch_unique(a@, b@, index as int, chosen);
            }
            return Some(index);
        }
        index += 1;
    }
    None
}

/// Tells whether two byte strings are equal.
pub fn same_bytes(a: &[u8], b: &[u8]) -> (same: bool)
    ensures
        same == (a@ == b@),
{
    if a.len() != b.len() {
        return false;
    }
    match first_mismatch(a, b) {
        Some(_) => false,
        None => {
            proof {
                assert(a@ =~= b@);
            }
            true
        },
    }
}

} // verus!
