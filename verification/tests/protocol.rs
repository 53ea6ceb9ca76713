use gb_live32::codec::{decode, encode};
use gb_live32::command::Command;
use gb_live32::handshake::{Handshake, Opening};
use gb_live32::session::{first_mismatch, same_bytes};
use gb_live32::{Gbl32, Gbl32Error, ProtocolFault, Status};

/// The line a peer sends for a response: `data || result || opcode`, framed,
/// then the delimiter.
fn answer(data: &[u8], result: u8, opcode: u8) -> Vec<u8> {
    let mut payload = data.to_vec();
    payload.push(result);
    payload.push(opcode);
    let mut line = cobs::encode_vec(&payload);
    line.push(0x00);
    line
}

/// A line whose frame decodes to exactly these bytes.
fn raw_answer(decoded: &[u8]) -> Vec<u8> {
    let mut line = cobs::encode_vec(decoded);
    line.push(0x00);
    line
}

/// A ready session: the handshake against a peer that echoes.
fn ready() -> Gbl32 {
    let handshake = Handshake::begin();
    let wire = handshake.frame();
    let mut request = cobs::decode_vec(&wire[..wire.len() - 1]).unwrap();
    request.pop();
    match Gbl32::from_port(handshake, Ok(answer(&request, 0xFF, 0x01))) {
        Opening::Ready(session) => session,
        _ => panic!("the handshake failed"),
    }
}

fn protocol(detail: ProtocolFault) -> Gbl32Error {
    Gbl32Error::Protocol(detail)
}

#[test]
fn encode_gives_known_frame() {
    assert_eq!(encode(&[0x11, 0x22, 0x00, 0x33]), vec![0x03, 0x11, 0x22, 0x02, 0x33]);
    assert_eq!(encode(&[]), vec![0x01]);
    assert_eq!(encode(&[0x00]), vec![0x01, 0x01]);
}

#[test]
fn decode_gives_known_payload() {
    assert_eq!(decode(vec![0x03, 0x11, 0x22, 0x02, 0x33]), Ok(vec![0x11, 0x22, 0x00, 0x33]));
    assert_eq!(decode(vec![0x01]), Ok(vec![]));
}

#[test]
fn decode_rejects_truncated_frame() {
    assert_eq!(decode(vec![0x05, 0x11]), Err(Gbl32Error::Decode));
    assert_eq!(decode(vec![]), Err(Gbl32Error::Decode));
}

#[test]
fn round_trip_keeps_payload_and_avoids_delimiter() {
    let mut payloads: Vec<Vec<u8>> = vec![vec![], vec![0], vec![0, 0, 0], vec![1, 2, 3]];
    payloads.push((0..=255u8).collect());
    payloads.push(vec![0x55; 253]);
    payloads.push(vec![0x55; 254]);
    payloads.push(vec![0x55; 255]);
    payloads.push((0..1000usize).map(|i| (i % 7) as u8).collect());
    payloads.push(vec![0xFF; 600]);
    let mut full_run = vec![0x55u8; 254];
    full_run.push(0x00);
    payloads.push(full_run.clone());
    full_run.push(0x00);
    payloads.push(full_run);
    payloads.push(vec![0x01; 508]);
    for payload in payloads {
        let frame = encode(&payload);
        assert!(frame.iter().all(|b| *b != 0x00));
        assert_eq!(decode(frame), Ok(payload));
    }
}

#[test]
fn request_appends_opcode_and_delimiter() {
    assert_eq!(Gbl32::request(0x03, &[]), vec![0x02, 0x03, 0x00]);
    assert_eq!(Gbl32::request(0x04, &[0x01]), vec![0x03, 0x01, 0x04, 0x00]);
    assert_eq!(Gbl32::request(0x06, &[0x00]), vec![0x01, 0x02, 0x06, 0x00]);
}

#[test]
fn response_with_other_opcode_is_a_mismatch() {
    let mut session = ready();
    let result = session.request_response(0x03, answer(&[0, 1, 0], 0xFF, 0x02), 3);
    assert_eq!(
        result,
        Err(protocol(ProtocolFault::CommandMismatch { received: 0x02, expected: 0x03 }))
    );
    assert!(session.response().is_empty());
}

#[test]
fn response_without_opcode_or_result() {
    let mut session = ready();
    assert_eq!(
        session.request_response(0x03, raw_answer(&[]), 3),
        Err(protocol(ProtocolFault::MissingCommand))
    );
    assert_eq!(
        session.request_response(0x03, raw_answer(&[0x03]), 3),
        Err(protocol(ProtocolFault::MissingResult))
    );
}

#[test]
fn response_of_wrong_length() {
    let mut session = ready();
    assert_eq!(
        session.request_response(0x02, answer(&[2, 1, 9], 0xFF, 0x02), 2),
        Err(protocol(ProtocolFault::ResponseLength { expected: 2, received: 3 }))
    );
    assert_eq!(
        session.request_response(0x02, answer(&[], 0xFF, 0x02), 2),
        Err(protocol(ProtocolFault::ResponseLength { expected: 2, received: 0 }))
    );
}

#[test]
fn response_with_device_message() {
    let mut session = ready();
    assert_eq!(
        session.request_response(0x08, answer(b"locked", 0xFE, 0x08), 0),
        Err(protocol(ProtocolFault::Device("locked".to_string())))
    );
    assert_eq!(
        session.request_response(0x08, answer(&[b'a', 0xC3, b'b'], 0xFE, 0x08), 0),
        Err(protocol(ProtocolFault::Device("a\u{FFFD}b".to_string())))
    );
}

#[test]
fn response_with_unknown_result_code() {
    let mut session = ready();
    assert_eq!(
        session.request_response(0x05, answer(&[1, 2], 0x42, 0x05), 0),
        Err(protocol(ProtocolFault::ResultCode(0x42)))
    );
}

#[test]
fn response_that_does_not_decode() {
    let mut session = ready();
    assert_eq!(session.request_response(0x05, vec![0x09, 0x01, 0x00], 0), Err(Gbl32Error::Decode));
    assert_eq!(session.request_response(0x05, vec![], 0), Err(Gbl32Error::Decode));
}

#[test]
fn successful_response_keeps_data() {
    let mut session = ready();
    assert_eq!(session.request_response(0x07, answer(&[9, 0, 7], 0xFF, 0x07), 3), Ok(()));
    assert_eq!(session.response(), &vec![9, 0, 7]);
    assert_eq!(session.read_response(0x07, vec![4, 5, 0xFF, 0x07], 2), Ok(()));
    assert_eq!(session.response(), &vec![4, 5]);
}

#[test]
fn status_bytes_become_booleans() {
    let mut session = ready();
    assert_eq!(
        session.get_status(answer(&[0x00, 0x01, 0x00], 0xFF, 0x03)),
        Ok(Status { unlocked: false, passthrough: true, reset: false })
    );
    assert_eq!(
        session.get_status(answer(&[0x80, 0x00, 0xFF], 0xFF, 0x03)),
        Ok(Status { unlocked: true, passthrough: false, reset: true })
    );
    assert_eq!(
        session.get_status(answer(&[0x00, 0x01], 0xFF, 0x03)),
        Err(protocol(ProtocolFault::ResponseLength { expected: 3, received: 2 }))
    );
}

#[test]
fn version_is_major_then_minor() {
    let mut session = ready();
    assert_eq!(session.get_version(answer(&[2, 1], 0xFF, 0x02)), Ok((2, 1)));
    assert_eq!(
        session.get_version(answer(&[2, 1], 0xFF, 0x03)),
        Err(protocol(ProtocolFault::CommandMismatch { received: 3, expected: 2 }))
    );
}

#[test]
fn ping_compares_the_echo() {
    let mut session = ready();
    let data = [1, 2, 3, 4, 5, 6, 7, 8];
    assert_eq!(session.ping(&data, answer(&data, 0xFF, 0x01)), Ok(true));
    assert_eq!(session.ping(&data, answer(&[1, 2, 3, 4, 5, 6, 7, 9], 0xFF, 0x01)), Ok(false));
    assert_eq!(
        session.ping(&data[..7], answer(&data[..7], 0xFF, 0x01)),
        Err(protocol(ProtocolFault::RequestLength { expected: 8, received: 7 }))
    );
    assert_eq!(
        session.ping(&data, answer(&data[..7], 0xFF, 0x01)),
        Err(protocol(ProtocolFault::ResponseLength { expected: 8, received: 7 }))
    );
}

#[test]
fn switches_are_acknowledged_without_data() {
    let mut session = ready();
    assert_eq!(session.set_unlocked(answer(&[], 0xFF, 0x04)), Ok(()));
    assert_eq!(session.set_passthrough(answer(&[], 0xFF, 0x05)), Ok(()));
    assert_eq!(session.set_reset(answer(&[], 0xFF, 0x06)), Ok(()));
    assert_eq!(
        session.set_reset(answer(&[1], 0xFF, 0x06)),
        Err(protocol(ProtocolFault::ResponseLength { expected: 0, received: 1 }))
    );
    assert_eq!(
        session.set_unlocked(answer(&[], 0xFF, 0x05)),
        Err(protocol(ProtocolFault::CommandMismatch { received: 5, expected: 4 }))
    );
}

#[test]
fn block_commands_check_their_lengths() {
    let mut session = ready();
    let page: Vec<u8> = (0..=255u8).collect();
    assert_eq!(session.read_block(answer(&page, 0xFF, 0x07)), Ok(page.clone()));
    assert_eq!(
        session.read_block(answer(&page[..255], 0xFF, 0x07)),
        Err(protocol(ProtocolFault::ResponseLength { expected: 256, received: 255 }))
    );
    assert_eq!(session.write_block(&page, answer(&[], 0xFF, 0x08)), Ok(()));
    assert_eq!(
        session.write_block(&page[..255], answer(&[], 0xFF, 0x08)),
        Err(protocol(ProtocolFault::RequestLength { expected: 256, received: 255 }))
    );
}

#[test]
fn bulk_commands_fix_the_transfer_size() {
    let mut session = ready();
    let image = vec![0xA5u8; 32768];
    assert_eq!(session.write_all(&image, answer(&[], 0xFF, 0x09)), Ok(()));
    assert_eq!(
        session.write_all(&image[..32767], answer(&[], 0xFF, 0x09)),
        Err(protocol(ProtocolFault::RequestLength { expected: 32768, received: 32767 }))
    );
    assert_eq!(
        session.write_all(&image, answer(&[], 0x00, 0x09)),
        Err(protocol(ProtocolFault::ResultCode(0)))
    );
    assert_eq!(session.read_all(answer(&[], 0xFF, 0x0a)), Ok(32768));
    assert_eq!(
        session.read_all(answer(&[], 0xFF, 0x09)),
        Err(protocol(ProtocolFault::CommandMismatch { received: 9, expected: 10 }))
    );
}

#[test]
fn command_table() {
    let commands = vec![
        (Command::Ping(vec![0; 8]), 0x01, 8),
        (Command::GetVersion, 0x02, 2),
        (Command::GetStatus, 0x03, 3),
        (Command::SetUnlocked(true), 0x04, 0),
        (Command::SetPassthrough(true), 0x05, 0),
        (Command::SetReset(true), 0x06, 0),
        (Command::ReadBlock(0x40), 0x07, 256),
        (Command::WriteBlock(0x40, vec![0; 256]), 0x08, 0),
        (Command::WriteAll(vec![0; 32768]), 0x09, 0),
        (Command::ReadAll, 0x0a, 0),
    ];
    for (command, opcode, len) in commands {
        assert_eq!(command.opcode(), opcode);
        assert_eq!(command.response_len(), len);
        assert_eq!(command.check(), Ok(()));
    }
}

#[test]
fn command_payloads_and_frames() {
    assert_eq!(Command::SetUnlocked(true).payload(), vec![1]);
    assert_eq!(Command::SetPassthrough(false).payload(), vec![0]);
    assert_eq!(Command::ReadBlock(0x7f).payload(), vec![0x7f]);
    assert_eq!(Command::ReadAll.payload(), Vec::<u8>::new());
    assert_eq!(Command::WriteAll(vec![3; 32768]).payload(), Vec::<u8>::new());
    let mut page = vec![0x10u8];
    page.extend(vec![7u8; 256]);
    assert_eq!(Command::WriteBlock(0x10, vec![7; 256]).payload(), page);
    assert_eq!(Command::GetStatus.frame(), Ok(vec![0x02, 0x03, 0x00]));
    assert_eq!(Command::SetReset(true).frame(), Ok(vec![0x03, 0x01, 0x06, 0x00]));
    assert_eq!(Command::SetReset(false).frame(), Ok(vec![0x01, 0x02, 0x06, 0x00]));
    let frame = Command::WriteBlock(0x10, vec![7; 256]).frame().unwrap();
    assert_eq!(frame.last(), Some(&0x00));
    page.push(0x08);
    assert_eq!(cobs::decode_vec(&frame[..frame.len() - 1]).unwrap(), page);
}

#[test]
fn commands_of_wrong_length_are_rejected() {
    assert_eq!(
        Command::Ping(vec![0; 9]).frame(),
        Err(protocol(ProtocolFault::RequestLength { expected: 8, received: 9 }))
    );
    assert_eq!(
        Command::WriteBlock(0, vec![0; 257]).check(),
        Err(protocol(ProtocolFault::RequestLength { expected: 256, received: 257 }))
    );
    assert_eq!(
        Command::WriteAll(vec![0; 32769]).frame(),
        Err(protocol(ProtocolFault::RequestLength { expected: 32768, received: 32769 }))
    );
}

#[test]
fn retryable_errors() {
    assert!(Gbl32Error::Decode.is_retryable());
    assert!(protocol(ProtocolFault::MissingCommand).is_retryable());
    assert!(Gbl32Error::Io(gb_live32::IoFault::TimedOut).is_retryable());
    assert!(!Gbl32Error::Io(gb_live32::IoFault::Other).is_retryable());
    assert!(!Gbl32Error::Handshake.is_retryable());
    assert!(!Gbl32Error::Serial.is_retryable());
}

#[test]
fn first_mismatch_finds_the_least_index() {
    assert_eq!(first_mismatch(&[1, 2, 3], &[1, 2, 3]), None);
    assert_eq!(first_mismatch(&[1, 2, 3], &[1, 9, 8]), Some(1));
    assert_eq!(first_mismatch(&[1, 2, 3], &[0, 2, 3]), Some(0));
    assert_eq!(first_mismatch(&[1, 2, 3], &[1, 2]), None);
    assert_eq!(first_mismatch(&[], &[]), None);
    assert!(same_bytes(&[1, 2], &[1, 2]));
    assert!(!same_bytes(&[1, 2], &[1, 2, 3]));
    assert!(!same_bytes(&[1, 2], &[1, 3]));
}
