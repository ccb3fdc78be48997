use quick_transfer::agent::CommunicationAgent;
use quick_transfer::encoding::{same_bytes, same_text, text_of_utf8, write_bytes, write_u64};
use quick_transfer::error::{ProgramRole, QuickTransferError};
use quick_transfer::stream::{QuickTransferStream, ReadEvent, ReceiveState, ReceiveStep};
use quick_transfer::transfer::BlockAction;

fn plain_agent(role: ProgramRole) -> CommunicationAgent {
    CommunicationAgent::new(QuickTransferStream::new_unencrypted(role, 5), role, 5)
}

fn framed(message: &[u8]) -> Vec<u8> {
    let mut wire = (message.len() as u64).to_be_bytes().to_vec();
    wire.extend_from_slice(message);
    wire
}

fn invalid(role: ProgramRole) -> QuickTransferError {
    QuickTransferError::SentInvalidData(role)
}

#[test]
fn write_u64_appends_big_endian_bytes() {
    let mut buffer = vec![0xaa];
    write_u64(&mut buffer, 0x0102_0304_0506_0708);
    assert_eq!(buffer, vec![0xaa, 1, 2, 3, 4, 5, 6, 7, 8]);
    write_u64(&mut buffer, u64::MAX);
    assert_eq!(&buffer[9..], &[0xff; 8]);
    write_bytes(&mut buffer, b"xy");
    assert_eq!(&buffer[17..], b"xy");
}

#[test]
fn same_bytes_and_same_text() {
    assert!(same_bytes(b"", b""));
    assert!(same_bytes(b"abc", b"abc"));
    assert!(!same_bytes(b"abc", b"abd"));
    assert!(!same_bytes(b"abc", b"ab"));
    assert!(same_text("CD______", "CD______"));
    assert!(!same_text("CD______", "CDANSWER"));
    assert!(same_text("zażółć", "zażółć"));
}

#[test]
fn text_of_utf8_takes_well_formed_bytes_only() {
    assert_eq!(text_of_utf8(b"plain"), Some("plain".to_string()));
    assert_eq!(text_of_utf8("zażółć".as_bytes()), Some("zażółć".to_string()));
    assert_eq!(text_of_utf8(b""), Some(String::new()));
    assert_eq!(text_of_utf8(&[0xc3, 0x28]), None);
    assert_eq!(text_of_utf8(&[0xed, 0xa0, 0x80]), None);
    assert_eq!(text_of_utf8(&[0x80]), None);
}

#[test]
fn read_u64_takes_eight_big_endian_bytes() {
    let agent = plain_agent(ProgramRole::Server);
    let message = [0, 0, 0, 0, 0, 0, 1, 0, 9, 9];
    let (number, rest) = agent.read_u64(&message).unwrap();
    assert_eq!(number, 256);
    assert_eq!(rest, &[9, 9]);
    let message = [0x12, 0x34, 0x56, 0x78, 0x9a, 0xbc, 0xde, 0xf0];
    let (number, rest) = agent.read_u64(&message).unwrap();
    assert_eq!(number, 0x1234_5678_9abc_def0);
    assert!(rest.is_empty());
    assert_eq!(agent.read_u64(&[1, 2, 3]), Err(invalid(ProgramRole::Server)));
}

#[test]
fn read_string_takes_text_and_leaves_the_rest() {
    let agent = plain_agent(ProgramRole::Client);
    let (text, rest) = agent.read_string(b"hello world", 5).unwrap();
    assert_eq!(text, "hello");
    assert_eq!(rest, b" world");
    let (text, rest) = agent.read_string("żółw!".as_bytes(), 7).unwrap();
    assert_eq!(text, "żółw");
    assert_eq!(rest, b"!");
    let (text, rest) = agent.read_string(b"abc", 0).unwrap();
    assert_eq!(text, "");
    assert_eq!(rest, b"abc");
}

#[test]
fn read_string_rejects_short_and_malformed_input() {
    let agent = plain_agent(ProgramRole::Client);
    assert_eq!(agent.read_string(b"abc", 4), Err(invalid(ProgramRole::Client)));
    assert_eq!(agent.read_string(b"abc", u64::MAX), Err(invalid(ProgramRole::Client)));
    assert_eq!(agent.read_string(&[0xff, 0xfe, 0x41], 2), Err(invalid(ProgramRole::Client)));
    assert_eq!(agent.read_string("ż".as_bytes(), 1), Err(invalid(ProgramRole::Client)));
}

#[test]
fn read_message_header_takes_eight_bytes() {
    let agent = plain_agent(ProgramRole::Server);
    let (header, rest) = agent.read_message_header(b"CD______rest").unwrap();
    assert_eq!(header, "CD______");
    assert_eq!(rest, b"rest");
    assert_eq!(agent.receive_message_header(b"LS______").unwrap(), "LS______");
    assert_eq!(agent.read_message_header(b"CD_____"), Err(invalid(ProgramRole::Server)));
    assert_eq!(agent.receive_message_header(b""), Err(invalid(ProgramRole::Server)));
}

#[test]
fn read_message_header_check_wants_the_expected_header() {
    let agent = plain_agent(ProgramRole::Client);
    assert_eq!(agent.read_message_header_check(b"DIR_____body", "DIR_____").unwrap(), b"body");
    assert_eq!(
        agent.read_message_header_check(b"DIR_____body", "CDANSWER"),
        Err(invalid(ProgramRole::Client))
    );
    assert_eq!(
        agent.read_message_header_check(b"DIR", "DIR_____"),
        Err(invalid(ProgramRole::Client))
    );
    assert_eq!(
        agent.read_message_header_check(&[0xff; 8], "DIR_____"),
        Err(invalid(ProgramRole::Client))
    );
}

#[test]
fn read_length_with_string_reads_counted_text() {
    let agent = plain_agent(ProgramRole::Server);
    let mut message = 6u64.to_be_bytes().to_vec();
    message.extend_from_slice(b"subdirXX");
    let (text, rest) = agent.read_length_with_string(&message).unwrap();
    assert_eq!(text, "subdir");
    assert_eq!(rest, b"XX");
    let mut too_long = 9u64.to_be_bytes().to_vec();
    too_long.extend_from_slice(b"subdirXX");
    assert_eq!(agent.read_length_with_string(&too_long), Err(invalid(ProgramRole::Server)));
    assert_eq!(agent.read_length_with_string(&[0; 4]), Err(invalid(ProgramRole::Server)));
}

#[test]
fn read_answer_takes_exactly_the_counted_body() {
    let agent = plain_agent(ProgramRole::Client);
    let mut message = 4u64.to_be_bytes().to_vec();
    message.extend_from_slice(&[1, 0, 0, 0, 77]);
    assert_eq!(agent.read_answer(&message).unwrap(), &[1, 0, 0, 0]);
    let mut short = 4u64.to_be_bytes().to_vec();
    short.extend_from_slice(&[1, 0]);
    assert_eq!(agent.read_answer(&short), Err(invalid(ProgramRole::Client)));
}

#[test]
fn requests_are_header_then_counted_names() {
    let agent = plain_agent(ProgramRole::Client);
    let mut expected = b"CD______".to_vec();
    expected.extend_from_slice(&6u64.to_be_bytes());
    expected.extend_from_slice(b"subdir");
    let outgoing = agent.send_change_directory("subdir").unwrap();
    assert!(outgoing.flush);
    assert_eq!(outgoing.bytes, framed(&expected));

    let mut expected = b"DOWNLOAD".to_vec();
    expected.extend_from_slice(&11u64.to_be_bytes());
    expected.extend_from_slice(b"missing.txt");
    assert_eq!(agent.send_download_request("missing.txt").unwrap().bytes, framed(&expected));

    let mut expected = b"MKDIR___".to_vec();
    expected.extend_from_slice(&4u64.to_be_bytes());
    expected.extend_from_slice("zaż".as_bytes());
    assert_eq!(agent.send_mkdir("zaż").unwrap().bytes, framed(&expected));

    let mut expected = b"REMOVE__".to_vec();
    expected.extend_from_slice(&1u64.to_be_bytes());
    expected.extend_from_slice(b"x");
    assert_eq!(agent.send_remove_request("x").unwrap().bytes, framed(&expected));

    let mut expected = b"RENAME__".to_vec();
    expected.extend_from_slice(&1u64.to_be_bytes());
    expected.extend_from_slice(b"a");
    expected.extend_from_slice(&2u64.to_be_bytes());
    expected.extend_from_slice(b"bc");
    assert_eq!(agent.send_rename_request("a", "bc").unwrap().bytes, framed(&expected));

    let mut expected = b"UPLOAD__".to_vec();
    expected.extend_from_slice(&5u64.to_be_bytes());
    expected.extend_from_slice(b"f.bin");
    expected.extend_from_slice(&4096u64.to_be_bytes());
    assert_eq!(agent.send_upload(4096, "f.bin").unwrap().bytes, framed(&expected));

    assert_eq!(agent.send_list_directory().unwrap().bytes, framed(b"LS______"));
    assert_eq!(agent.send_disconnect_message().unwrap().bytes, framed(b"DISCONN_"));
}

#[test]
fn answers_are_header_then_counted_body() {
    let agent = plain_agent(ProgramRole::Server);
    let mut expected = b"CDANSWER".to_vec();
    expected.extend_from_slice(&4u64.to_be_bytes());
    expected.extend_from_slice(&[1, 0, 0, 0]);
    assert_eq!(agent.send_answer("CDANSWER", &[1, 0, 0, 0]).unwrap().bytes, framed(&expected));

    let mut expected = b"DIR_____".to_vec();
    expected.extend_from_slice(&2u64.to_be_bytes());
    expected.extend_from_slice(&[5, 6]);
    assert_eq!(agent.send_directory_description(&[5, 6]).unwrap().bytes, framed(&expected));

    let mut expected = b"DOWNSUCC".to_vec();
    expected.extend_from_slice(&1234u64.to_be_bytes());
    assert_eq!(agent.send_download_success(1234).unwrap().bytes, framed(&expected));
}

#[test]
fn answer_written_by_one_agent_is_read_by_the_other() {
    let server = CommunicationAgent::new(
        QuickTransferStream::new_encrypted([7u8; 32], ProgramRole::Server, 5),
        ProgramRole::Server,
        5,
    );
    let client = CommunicationAgent::new(
        QuickTransferStream::new_encrypted([7u8; 32], ProgramRole::Client, 5),
        ProgramRole::Client,
        5,
    );
    assert!(server.is_encrypted());
    let wire = server.send_answer("MKDIRANS", &[3, 0, 0, 0]).unwrap().bytes;

    let mut state = ReceiveState::start(false);
    let mut offset = 0;
    let message = loop {
        let request = client.read_request(&state);
        let bytes = wire[offset..offset + request.count].to_vec();
        offset += request.count;
        match client.receive_tcp(state, ReadEvent::Bytes(bytes)).unwrap() {
            ReceiveStep::Read(next) => state = next,
            ReceiveStep::Message(message) => break message,
        }
    };
    assert_eq!(offset, wire.len());
    let body = client.read_message_header_check(&message, "MKDIRANS").unwrap();
    assert_eq!(client.read_answer(body).unwrap(), &[3, 0, 0, 0]);
}

#[test]
fn agent_keeps_role_timeout_and_mode() {
    let mut agent = CommunicationAgent::new(
        QuickTransferStream::new_unencrypted(ProgramRole::Server, 9),
        ProgramRole::Client,
        3,
    );
    assert_eq!(agent.role(), ProgramRole::Client);
    assert_eq!(agent.timeout(), 3);
    assert!(!agent.is_encrypted());
    assert_eq!(agent.bare_header_request().timeout, Some(3));
    assert_eq!(agent.read_request(&ReceiveState::AwaitLength).timeout, Some(9));
    assert_eq!(agent.send_bare_message("INIT_ENC").bytes, b"INIT_ENC".to_vec());
    assert_eq!(
        agent.receive_bare_message_header(ReadEvent::Bytes(b"OK______".to_vec())).unwrap(),
        "OK______"
    );
    assert_eq!(
        agent.receive_bare_message_header(ReadEvent::TimedOut),
        Err(QuickTransferError::MessageReceiveTimeout(ProgramRole::Server))
    );
    agent.change_to_encrypted([1u8; 32]);
    assert!(agent.is_encrypted());
    assert_eq!(agent.role(), ProgramRole::Client);
}

#[test]
fn agent_starts_transfers() {
    let agent = plain_agent(ProgramRole::Server);
    let sending = agent.send_file(10, String::from("a.txt"));
    assert_eq!(sending.remaining(), 10);
    let mut reception = agent.receive_file(10, String::from("a.txt"), true);
    assert_eq!(reception.remaining(), 10);
    assert_eq!(reception.block_received(4), Ok(BlockAction::Write));
    assert_eq!(reception.block_received(7), Err(invalid(ProgramRole::Server)));
}
