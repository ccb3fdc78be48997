use aes_gcm::aead::{Aead, KeyInit};
use aes_gcm::{Aes256Gcm, Key, Nonce};
use quick_transfer::error::{IoErrorKind, ProgramRole, QuickTransferError};
use quick_transfer::options::DEFAULT_TIMEOUT;
use quick_transfer::stream::{
    QuickTransferStream, ReadEvent, ReadRequest, ReceiveState, ReceiveStep,
};

fn round_trip(stream: &QuickTransferStream, payload: &[u8]) {
    let outgoing = stream.send_tcp(payload, true).unwrap();
    assert!(outgoing.flush);
    assert_eq!(stream.read_frame(&outgoing.bytes).unwrap(), payload.to_vec());
}

fn large_payload() -> Vec<u8> {
    (0..70_000u32).map(|i| (i % 251) as u8).collect()
}

#[test]
fn plain_frame_is_length_then_message() {
    let stream = QuickTransferStream::new_unencrypted(ProgramRole::Client, 5);
    let outgoing = stream.send_tcp(b"LS______", false).unwrap();
    assert!(!outgoing.flush);
    assert_eq!(
        outgoing.bytes,
        vec![0, 0, 0, 0, 0, 0, 0, 8, b'L', b'S', b'_', b'_', b'_', b'_', b'_', b'_']
    );
}

#[test]
fn plain_frame_length_is_big_endian() {
    let stream = QuickTransferStream::new_unencrypted(ProgramRole::Client, 5);
    let payload = vec![7u8; 0x0102];
    let wire = stream.send_tcp(&payload, true).unwrap().bytes;
    assert_eq!(&wire[..8], &[0, 0, 0, 0, 0, 0, 1, 2]);
    assert_eq!(&wire[8..], &payload[..]);
}

#[test]
fn plain_round_trip_of_empty_and_large_payloads() {
    let stream = QuickTransferStream::new_unencrypted(ProgramRole::Server, 5);
    round_trip(&stream, &[]);
    round_trip(&stream, b"Hello, world!");
    round_trip(&stream, &large_payload());
}

#[test]
fn sealed_round_trip_of_empty_and_large_payloads() {
    let stream = QuickTransferStream::new_encrypted([56u8; 32], ProgramRole::Server, 5);
    round_trip(&stream, &[]);
    round_trip(&stream, b"Hello, encrypted world!");
    round_trip(&stream, &large_payload());
}

#[test]
fn sealed_frame_holds_nonce_and_sealed_bytes_behind_their_lengths() {
    let key = [56u8; 32];
    let nonce = [45u8; 12];
    let message = b"I_NEED_TO_SOME_TEXT_OF_LENGTH_32";
    let stream = QuickTransferStream::new_encrypted(key, ProgramRole::Client, 5);
    let wire = stream.seal_frame(&nonce, message).unwrap();

    let cipher = Aes256Gcm::new(Key::<Aes256Gcm>::from_slice(&key));
    let sealed = cipher.encrypt(Nonce::from_slice(&nonce), &message[..]).unwrap();
    assert_eq!(sealed.len(), message.len() + 16);

    let mut expected = Vec::new();
    expected.extend_from_slice(&((8 + 12 + 8 + sealed.len()) as u64).to_be_bytes());
    expected.extend_from_slice(&12u64.to_le_bytes());
    expected.extend_from_slice(&nonce);
    expected.extend_from_slice(&(sealed.len() as u64).to_le_bytes());
    expected.extend_from_slice(&sealed);
    assert_eq!(wire, expected);
    assert_eq!(stream.read_frame(&wire).unwrap(), message.to_vec());
}

#[test]
fn sealed_frames_of_one_message_differ_by_their_nonce() {
    let stream = QuickTransferStream::new_encrypted([9u8; 32], ProgramRole::Client, 5);
    let first = stream.send_tcp(b"same", true).unwrap().bytes;
    let second = stream.send_tcp(b"same", true).unwrap().bytes;
    assert_eq!(&first[8..16], &12u64.to_le_bytes());
    assert_eq!(first.len(), 8 + 8 + 12 + 8 + 4 + 16);
    assert_ne!(first[16..28], second[16..28]);
    assert_eq!(stream.read_frame(&first).unwrap(), b"same".to_vec());
    assert_eq!(stream.read_frame(&second).unwrap(), b"same".to_vec());
}

#[test]
fn sealing_succeeds_for_every_message_the_cipher_takes() {
    let stream = QuickTransferStream::new_encrypted([9u8; 32], ProgramRole::Client, 5);
    assert!(stream.seal_frame(&[0u8; 12], &[]).is_ok());
    assert!(stream.seal_frame(&[0u8; 12], &large_payload()).is_ok());
    assert!(stream.seal_frame(&[0u8; 13], &[]).is_err());
}

#[test]
fn seal_frame_refuses_a_nonce_of_the_wrong_length() {
    let stream = QuickTransferStream::new_encrypted([9u8; 32], ProgramRole::Client, 5);
    assert_eq!(stream.seal_frame(&[1u8; 11], b"x"), Err(QuickTransferError::Ciphering));
    let plain = QuickTransferStream::new_unencrypted(ProgramRole::Client, 5);
    assert_eq!(plain.seal_frame(&[], b"x").unwrap(), vec![0, 0, 0, 0, 0, 0, 0, 1, b'x']);
}

#[test]
fn sealed_frame_under_another_key_does_not_decipher() {
    let writer = QuickTransferStream::new_encrypted([1u8; 32], ProgramRole::Client, 5);
    let reader = QuickTransferStream::new_encrypted([2u8; 32], ProgramRole::Server, 5);
    let outgoing = writer.send_tcp(b"secret", true).unwrap();
    assert_eq!(reader.read_frame(&outgoing.bytes), Err(QuickTransferError::Deciphering));
}

#[test]
fn tampered_sealed_frame_does_not_decipher() {
    let stream = QuickTransferStream::new_encrypted([1u8; 32], ProgramRole::Server, 5);
    let mut wire = stream.send_tcp(b"secret", true).unwrap().bytes;
    let last = wire.len() - 1;
    wire[last] ^= 1;
    assert_eq!(stream.read_frame(&wire), Err(QuickTransferError::Deciphering));
}

#[test]
fn payload_that_is_no_envelope_is_invalid_data() {
    let stream = QuickTransferStream::new_encrypted([1u8; 32], ProgramRole::Server, 5);
    assert_eq!(
        stream.open_frame(b"short"),
        Err(QuickTransferError::SentInvalidData(ProgramRole::Server))
    );
    let mut claims_too_much = Vec::new();
    claims_too_much.extend_from_slice(&100u64.to_le_bytes());
    claims_too_much.extend_from_slice(&[0u8; 20]);
    assert_eq!(
        stream.open_frame(&claims_too_much),
        Err(QuickTransferError::SentInvalidData(ProgramRole::Server))
    );
    let mut short_nonce = Vec::new();
    short_nonce.extend_from_slice(&4u64.to_le_bytes());
    short_nonce.extend_from_slice(&[0u8; 4]);
    short_nonce.extend_from_slice(&16u64.to_le_bytes());
    short_nonce.extend_from_slice(&[0u8; 16]);
    assert_eq!(
        stream.open_frame(&short_nonce),
        Err(QuickTransferError::SentInvalidData(ProgramRole::Server))
    );
}

#[test]
fn frame_with_a_wrong_length_is_invalid_data() {
    let stream = QuickTransferStream::new_unencrypted(ProgramRole::Client, 5);
    assert_eq!(
        stream.read_frame(&[0, 0, 0]),
        Err(QuickTransferError::SentInvalidData(ProgramRole::Client))
    );
    assert_eq!(
        stream.read_frame(&[0, 0, 0, 0, 0, 0, 0, 2, 1]),
        Err(QuickTransferError::SentInvalidData(ProgramRole::Client))
    );
    assert_eq!(stream.read_frame(&[0, 0, 0, 0, 0, 0, 0, 0]).unwrap(), Vec::<u8>::new());
}

#[test]
fn reception_in_two_reads() {
    let stream = QuickTransferStream::new_unencrypted(ProgramRole::Server, 5);
    let wire = stream.send_tcp(b"abc", true).unwrap().bytes;
    let state = ReceiveState::start(false);
    assert_eq!(state, ReceiveState::AwaitLength);
    assert_eq!(stream.read_request(&state), ReadRequest { count: 8, timeout: Some(5) });
    let step = stream.receive_tcp(state, ReadEvent::Bytes(wire[..8].to_vec())).unwrap();
    assert_eq!(step, ReceiveStep::Read(ReceiveState::AwaitPayload { length: 3 }));
    let state = ReceiveState::AwaitPayload { length: 3 };
    assert_eq!(stream.read_request(&state), ReadRequest { count: 3, timeout: Some(5) });
    let step = stream.receive_tcp(state, ReadEvent::Bytes(wire[8..].to_vec())).unwrap();
    assert_eq!(step, ReceiveStep::Message(b"abc".to_vec()));
}

#[test]
fn idle_reception_waits_for_the_first_byte_without_a_timeout() {
    let stream = QuickTransferStream::new_encrypted([3u8; 32], ProgramRole::Server, 7);
    let wire = stream.send_tcp(b"DISCONN_", true).unwrap().bytes;
    let state = ReceiveState::start(true);
    assert_eq!(state, ReceiveState::AwaitFirstByte);
    assert_eq!(stream.read_request(&state), ReadRequest { count: 1, timeout: None });
    let step = stream.receive_tcp(state, ReadEvent::Bytes(wire[..1].to_vec())).unwrap();
    let state = ReceiveState::AwaitLengthRest { first: wire[0] };
    assert_eq!(step, ReceiveStep::Read(state));
    assert_eq!(stream.read_request(&state), ReadRequest { count: 7, timeout: Some(7) });
    let step = stream.receive_tcp(state, ReadEvent::Bytes(wire[1..8].to_vec())).unwrap();
    let state = ReceiveState::AwaitPayload { length: wire.len() - 8 };
    assert_eq!(step, ReceiveStep::Read(state));
    let step = stream.receive_tcp(state, ReadEvent::Bytes(wire[8..].to_vec())).unwrap();
    assert_eq!(step, ReceiveStep::Message(b"DISCONN_".to_vec()));
}

#[test]
fn reception_failures() {
    let stream = QuickTransferStream::new_unencrypted(ProgramRole::Client, 5);
    assert_eq!(
        stream.receive_tcp(ReceiveState::AwaitLength, ReadEvent::TimedOut),
        Err(QuickTransferError::MessageReceiveTimeout(ProgramRole::Client))
    );
    assert_eq!(
        stream.receive_tcp(
            ReceiveState::AwaitFirstByte,
            ReadEvent::Failed(IoErrorKind::UnexpectedEof)
        ),
        Err(QuickTransferError::RemoteClosedConnection(ProgramRole::Client))
    );
    assert_eq!(
        stream.receive_tcp(
            ReceiveState::AwaitPayload { length: 4 },
            ReadEvent::Failed(IoErrorKind::Other)
        ),
        Err(QuickTransferError::MessageReceive(ProgramRole::Client))
    );
    assert_eq!(
        stream.receive_tcp(ReceiveState::AwaitLength, ReadEvent::Bytes(vec![0; 7])),
        Err(QuickTransferError::MessageReceive(ProgramRole::Client))
    );
    assert_eq!(
        stream.receive_tcp(ReceiveState::AwaitPayload { length: 4 }, ReadEvent::Bytes(vec![])),
        Err(QuickTransferError::MessageReceive(ProgramRole::Client))
    );
}

#[test]
fn reception_of_an_empty_frame() {
    let stream = QuickTransferStream::new_unencrypted(ProgramRole::Client, 5);
    let step = stream.receive_tcp(ReceiveState::AwaitLength, ReadEvent::Bytes(vec![0; 8])).unwrap();
    assert_eq!(step, ReceiveStep::Read(ReceiveState::AwaitPayload { length: 0 }));
    let step = stream
        .receive_tcp(ReceiveState::AwaitPayload { length: 0 }, ReadEvent::Bytes(vec![]))
        .unwrap();
    assert_eq!(step, ReceiveStep::Message(vec![]));
}

#[test]
fn test_send_bare_message() {
    let quick_transfer_stream =
        QuickTransferStream::new_unencrypted(ProgramRole::Client, DEFAULT_TIMEOUT);
    let outgoing = quick_transfer_stream.send_bare_message("Hello, world!");
    assert_eq!(&outgoing.bytes[..], b"Hello, world!");
    assert!(outgoing.flush);
}

#[test]
fn test_receive_bare_message_header() {
    let quick_transfer_stream =
        QuickTransferStream::new_unencrypted(ProgramRole::Client, DEFAULT_TIMEOUT);
    assert_eq!(
        QuickTransferStream::bare_header_request(DEFAULT_TIMEOUT),
        ReadRequest { count: 8, timeout: Some(5) }
    );
    let header = quick_transfer_stream
        .receive_bare_message_header(ReadEvent::Bytes(b"HEADERMS".to_vec()))
        .unwrap();
    assert_eq!(header, "HEADERMS");
}

#[test]
fn bare_header_failures() {
    let stream = QuickTransferStream::new_unencrypted(ProgramRole::Server, DEFAULT_TIMEOUT);
    assert_eq!(
        stream.receive_bare_message_header(ReadEvent::TimedOut),
        Err(QuickTransferError::MessageReceiveTimeout(ProgramRole::Server))
    );
    assert_eq!(
        stream.receive_bare_message_header(ReadEvent::Failed(IoErrorKind::UnexpectedEof)),
        Err(QuickTransferError::RemoteClosedConnection(ProgramRole::Server))
    );
    assert_eq!(
        stream.receive_bare_message_header(ReadEvent::Bytes(vec![0xff; 8])),
        Err(QuickTransferError::SentInvalidData(ProgramRole::Server))
    );
    assert_eq!(
        stream.receive_bare_message_header(ReadEvent::Bytes(b"SHORT".to_vec())),
        Err(QuickTransferError::MessageReceive(ProgramRole::Server))
    );
}

#[test]
fn test_change_to_encrypted() {
    let mut quick_transfer_stream =
        QuickTransferStream::new_unencrypted(ProgramRole::Client, DEFAULT_TIMEOUT);
    assert!(!quick_transfer_stream.is_encrypted());
    quick_transfer_stream.change_to_encrypted([0u8; 32]);
    if !quick_transfer_stream.is_encrypted() {
        panic!("Stream was not changed to encrypted");
    }
    let header = quick_transfer_stream
        .receive_bare_message_header(ReadEvent::Bytes(b"HEADERMS".to_vec()))
        .unwrap();
    assert_eq!(header, "HEADERMS");
}

#[test]
fn test_send_encrypted_message() {
    let quick_transfer_stream =
        QuickTransferStream::new_encrypted([0u8; 32], ProgramRole::Client, DEFAULT_TIMEOUT);
    let outgoing = quick_transfer_stream.send_tcp(b"Hello, encrypted world!", true).unwrap();
    let n = outgoing.bytes.len();
    assert!(n > 0);
    assert_ne!(&outgoing.bytes[8..], b"Hello, encrypted world!");
}

#[test]
fn test_receive_encrypted_message_header() {
    let nonce = [45_u8; 12];
    let test_str = "I_NEED_TO_SOME_TEXT_OF_LENGTH_32";
    let key = [56_u8; 32];
    let cipher = Aes256Gcm::new(Key::<Aes256Gcm>::from_slice(&key));
    let cipher_text = cipher.encrypt(Nonce::from_slice(&nonce), test_str.as_bytes()).unwrap();

    let mut payload = Vec::new();
    payload.extend_from_slice(&12u64.to_le_bytes());
    payload.extend_from_slice(&nonce);
    payload.extend_from_slice(&(cipher_text.len() as u64).to_le_bytes());
    payload.extend_from_slice(&cipher_text);

    let stream = QuickTransferStream::new_encrypted(key, ProgramRole::Client, DEFAULT_TIMEOUT);
    let received_text = stream.open_frame(&payload);
    assert_eq!(received_text.unwrap(), test_str.as_bytes());
}
