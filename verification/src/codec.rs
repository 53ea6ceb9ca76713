//! Frame codec: consistent-overhead byte stuffing with 0x00 as delimiter.

use crate::error::{Fault, Gbl32Error};
use vstd::prelude::*;

verus! {

/// The byte that separates frames on the wire.
pub const DELIMITER: u8 = 0x00;

/// The byte-stuffed encoding that `cobs::encode_vec` gives a payload.
pub uninterp spec fn cobs_encoding(payload: Seq<u8>) -> Seq<u8>;

/// What `cobs::decode_in_place` makes of a frame: the payload, or `None`
/// where it rejects the frame.
pub uninterp spec fn cobs_decoding(frame: Seq<u8>) -> Option<Seq<u8>>;

/// Whether no byte of `bytes` is the delimiter.
pub open spec fn delimiter_free(bytes: Seq<u8>) -> bool {
    forall|i: int| 0 <= i < bytes.len() ==> bytes[i] != DELIMITER
}

/// Calls `cobs::encode_vec`. Trusted: the result is the encoding of the
/// payload, it holds no zero byte, and decoding it gives the payload back.
/// These are the guarantees of byte stuffing that the outside crate
/// documents; nothing here proves them.
#[verifier::external_body]
fn cobs_encode(payload: &[u8]) -> (frame: Vec<u8>)
    ensures
        frame@ == cobs_encoding(payload@),
        delimiter_free(frame@),
        cobs_decoding(frame@) == Some(payload@),
{
    cobs::encode_vec(payload)
}

/// Calls `cobs::decode_in_place` on the frame and cuts the buffer to the
/// decoded length. Trusted: the result is the named decoding of the frame.
#[verifier::external_body]
fn cobs_decode(frame: Vec<u8>) -> (payload: Option<Vec<u8>>)
    ensures
        match payload {
            Some(bytes) => cobs_decoding(frame@) == Some(bytes@),
            None => cobs_decoding(frame@).is_none(),
        },
{
    let mut buffer = frame;
    match cobs::decode_in_place(&mut buffer) {
        Ok(used) => {
            buffer.truncate(used);
            Some(buffer)
        },
        Err(_) => None,
    }
}

/// What `encode` promises of the frame that it gives a payload.
pub open spec fn is_encoding(payload: Seq<u8>, frame: Seq<u8>) -> bool {
    &&& frame == cobs_encoding(payload)
    &&& delimiter_free(frame)
    &&& cobs_decoding(frame) == Some(payload)
}

/// What `decode` makes of a frame: the payload, or the decode fault.
pub open spec fn decode_outcome(frame: Seq<u8>) -> Result<Seq<u8>, Fault> {
    match cobs_decoding(frame) {
        Some(payload) => Ok(payload),
        None => Err(Fault::Decode),
    }
}

/// Encodes a payload into a frame that holds no delimiter byte. Decoding the
/// frame gives the payload back.
pub fn encode(payload: &[u8]) -> (frame: Vec<u8>)
    ensures
        is_encoding(payload@, frame@),
{
    cobs_encode(payload)
}

/// Decodes a frame, given without its delimiter, back into the payload, or
/// fails with [`Gbl32Error::Decode`] where the frame is malformed.
pub fn decode(frame: Vec<u8>) -> (payload: Result<Vec<u8>, Gbl32Error>)
    ensures
        match (payload, decode_outcome(frame@)) {
            (Ok(bytes), Ok(expected)) => bytes@ == expected,
            (Err(e), Err(fault)) => e@ == fault,
            _ => false,
        },
{
    match cobs_decode(frame) {
        Some(bytes) => Ok(bytes),
        None => Err(Gbl32Error::Decode),
    }
}

/// Round trip: the frame that `encode` gives a payload holds no delimiter
/// byte, and `decode` gives that payload back, byte for byte. This rests on
/// what the trusted call of the encoder promises.
pub proof fn lemma_round_trip(payload: Seq<u8>, frame: Seq<u8>)
    requires
        is_encoding(payload, frame),
    ensures
        decode_outcome(frame) == Ok::<Seq<u8>, Fault>(payload),
        delimiter_free(frame),
{
}

} // verus!
