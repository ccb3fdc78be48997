//! The session agent: typed pieces of a message, taken from received bytes
//! and put together for sending.

use crate::encoding::{
    be_number_of, same_bytes, text_of_utf8, u64_be_bytes, u64_from_be_bytes, write_bytes,
    write_u64,
};
use crate::error::{ProgramRole, QuickTransferError};
use crate::messages::{
    HEADER_NAME_LENGTH, MESSAGE_LENGTH_LENGTH, MESSAGE_CD, MESSAGE_DIR, MESSAGE_DISCONNECT, MESSAGE_DOWNLOAD,
    MESSAGE_DOWNLOAD_SUCCESS, MESSAGE_LS, MESSAGE_MKDIR, MESSAGE_REMOVE, MESSAGE_RENAME,
    MESSAGE_UPLOAD,
};
use crate::transfer::{FileReception, FileSending, ReceptionState};
use crate::stream::{
    bare_header, frame_sent, receive_outcome, step_view, text_view, Outgoing, QuickTransferStream,
    ReadEvent, ReadRequest, ReceiveState, ReceiveStep,
};
use vstd::prelude::*;
use vstd::slice::slice_subrange;
use vstd::string::StringSliceAdditionalSpecFns;
use vstd::utf8::{decode_utf8, decode_utf8_encode_utf8, encode_utf8, valid_utf8};

verus! {

/// A text of `length` bytes at the start of a message, and what follows it.
/// A message that is too short, or whose bytes are no UTF-8, is invalid data.
pub open spec fn string_read(role: ProgramRole, message: Seq<u8>, length: u64) -> Result<
    (Seq<char>, Seq<u8>),
    QuickTransferError,
> {
    if length > message.len() || !valid_utf8(message.subrange(0, length as int)) {
        Err(QuickTransferError::SentInvalidData(role))
    } else {
        Ok(
            (
                decode_utf8(message.subrange(0, length as int)),
                message.subrange(length as int, message.len() as int),
            ),
        )
    }
}

/// The header tag at the start of a message, and what follows it.
pub open spec fn header_read(role: ProgramRole, message: Seq<u8>) -> Result<
    (Seq<char>, Seq<u8>),
    QuickTransferError,
> {
    string_read(role, message, HEADER_NAME_LENGTH as u64)
}

/// What follows the header tag of a message, where the tag is the expected
/// one. Any other tag is invalid data.
pub open spec fn header_checked(role: ProgramRole, message: Seq<u8>, header: Seq<char>) -> Result<
    Seq<u8>,
    QuickTransferError,
> {
    match header_read(role, message) {
        Ok((found, rest)) => if found == header {
            Ok(rest)
        } else {
            Err(QuickTransferError::SentInvalidData(role))
        },
        Err(e) => Err(e),
    }
}

/// The big-endian number at the start of a message, and what follows it.
pub open spec fn u64_read(role: ProgramRole, message: Seq<u8>) -> Result<
    (u64, Seq<u8>),
    QuickTransferError,
> {
    if message.len() < MESSAGE_LENGTH_LENGTH {
        Err(QuickTransferError::SentInvalidData(role))
    } else {
        Ok(
            (
                u64_from_be_bytes(message),
                message.subrange(MESSAGE_LENGTH_LENGTH as int, message.len() as int),
            ),
        )
    }
}

/// The text behind its length at the start of a message, and what follows it.
pub open spec fn counted_string_read(role: ProgramRole, message: Seq<u8>) -> Result<
    (Seq<char>, Seq<u8>),
    QuickTransferError,
> {
    match u64_read(role, message) {
        Ok((length, rest)) => string_read(role, rest, length),
        Err(e) => Err(e),
    }
}

/// The body behind its length at the start of a message: exactly as many
/// bytes as the length says. A message that holds fewer is invalid data.
pub open spec fn answer_read(role: ProgramRole, message: Seq<u8>) -> Result<
    Seq<u8>,
    QuickTransferError,
> {
    match u64_read(role, message) {
        Ok((length, rest)) => if length > rest.len() {
            Err(QuickTransferError::SentInvalidData(role))
        } else {
            Ok(rest.subrange(0, length as int))
        },
        Err(e) => Err(e),
    }
}

/// A text and the rest of a message, as sequences.
pub open spec fn text_rest_view(read: Result<(String, &[u8]), QuickTransferError>) -> Result<
    (Seq<char>, Seq<u8>),
    QuickTransferError,
> {
    match read {
        Ok((text, rest)) => Ok((text@, rest@)),
        Err(e) => Err(e),
    }
}

/// A number and the rest of a message, the rest as a sequence.
pub open spec fn number_rest_view(read: Result<(u64, &[u8]), QuickTransferError>) -> Result<
    (u64, Seq<u8>),
    QuickTransferError,
> {
    match read {
        Ok((n, rest)) => Ok((n, rest@)),
        Err(e) => Err(e),
    }
}

/// The rest of a message, as a sequence.
pub open spec fn rest_view(read: Result<&[u8], QuickTransferError>) -> Result<
    Seq<u8>,
    QuickTransferError,
> {
    match read {
        Ok(rest) => Ok(rest@),
        Err(e) => Err(e),
    }
}

/// A text as it is put into a message: the length of its UTF-8 encoding as
/// eight big-endian bytes, then the encoding.
pub open spec fn counted_text(text: Seq<char>) -> Seq<u8> {
    u64_be_bytes(encode_utf8(text).len() as u64) + encode_utf8(text)
}

/// A message that is a header tag and one text.
pub open spec fn named_message(header: Seq<char>, name: Seq<char>) -> Seq<u8> {
    encode_utf8(header) + counted_text(name)
}

/// A message that is a header tag and a body behind its length.
pub open spec fn answer_message(header: Seq<char>, body: Seq<u8>) -> Seq<u8> {
    encode_utf8(header) + u64_be_bytes(body.len() as u64) + body
}

/// The message that announces a file as found, with its size.
pub open spec fn download_success_message(file_size: u64) -> Seq<u8> {
    encode_utf8(MESSAGE_DOWNLOAD_SUCCESS@) + u64_be_bytes(file_size)
}

/// The message that opens an upload: the file's name and its size.
pub open spec fn upload_message(file_name: Seq<char>, file_size: u64) -> Seq<u8> {
    encode_utf8(MESSAGE_UPLOAD@) + counted_text(file_name) + u64_be_bytes(file_size)
}

/// The message that asks to rename an entry.
pub open spec fn rename_message(file_name: Seq<char>, new_name: Seq<char>) -> Seq<u8> {
    encode_utf8(MESSAGE_RENAME@) + counted_text(file_name) + counted_text(new_name)
}

/// A header tag of eight bytes in front of a message is read back as that
/// tag, with the message behind it.
pub proof fn lemma_header_read(role: ProgramRole, header: Seq<char>, rest: Seq<u8>)
    requires
        encode_utf8(header).len() == HEADER_NAME_LENGTH,
    ensures
        header_read(role, encode_utf8(header) + rest) == Ok::<
            (Seq<char>, Seq<u8>),
            QuickTransferError,
        >((header, rest)),
{
    let message = encode_utf8(header) + rest;
    assert(message.subrange(0, 8) =~= encode_utf8(header));
    assert(message.subrange(8, message.len() as int) =~= rest);
    vstd::utf8::encode_utf8_valid_utf8(header);
    vstd::utf8::encode_utf8_decode_utf8(header);
}

/// A number in front of a message is read back as that number, with the
/// message behind it.
pub proof fn lemma_u64_read(role: ProgramRole, n: u64, rest: Seq<u8>)
    ensures
        u64_read(role, u64_be_bytes(n) + rest) == Ok::<(u64, Seq<u8>), QuickTransferError>(
            (n, rest),
        ),
{
    let message = u64_be_bytes(n) + rest;
    crate::encoding::lemma_u64_be_round_trip(n, rest);
    assert(message.subrange(8, message.len() as int) =~= rest);
}

/// A text behind its length in front of a message is read back as that
/// text, with the message behind it.
pub proof fn lemma_counted_string_read(role: ProgramRole, text: Seq<char>, rest: Seq<u8>)
    requires
        encode_utf8(text).len() <= u64::MAX,
    ensures
        counted_string_read(role, counted_text(text) + rest) == Ok::<
            (Seq<char>, Seq<u8>),
            QuickTransferError,
        >((text, rest)),
{
    let bytes = encode_utf8(text);
    let n = bytes.len() as u64;
    let tail = bytes + rest;
    assert(counted_text(text) + rest =~= u64_be_bytes(n) + tail);
    lemma_u64_read(role, n, tail);
    assert(tail.subrange(0, n as int) =~= bytes);
    assert(tail.subrange(n as int, tail.len() as int) =~= rest);
    vstd::utf8::encode_utf8_valid_utf8(text);
    vstd::utf8::encode_utf8_decode_utf8(text);
}

/// The body of an answer is read back from behind its header tag as it was
/// put there.
pub proof fn lemma_answer_read(role: ProgramRole, header: Seq<char>, body: Seq<u8>)
    requires
        encode_utf8(header).len() == HEADER_NAME_LENGTH,
        body.len() <= u64::MAX,
    ensures
        header_checked(role, answer_message(header, body), header) == Ok::<
            Seq<u8>,
            QuickTransferError,
        >(u64_be_bytes(body.len() as u64) + body),
        answer_read(role, u64_be_bytes(body.len() as u64) + body) == Ok::<
            Seq<u8>,
            QuickTransferError,
        >(body),
{
    let tail = u64_be_bytes(body.len() as u64) + body;
    assert(answer_message(header, body) =~= encode_utf8(header) + tail);
    lemma_header_read(role, header, tail);
    lemma_u64_read(role, body.len() as u64, body);
    assert(body.subrange(0, body.len() as int) =~= body);
}

/// Sends and receives the pieces of messages over one stream.
#[derive(Clone, Debug)]
pub struct CommunicationAgent {
    stream: QuickTransferStream,
    role: ProgramRole,
    timeout: u16,
}

impl CommunicationAgent {
    /// The key under which the agent's stream seals payloads, if any.
    pub closed spec fn key(&self) -> Option<Seq<u8>> {
        self.stream.key()
    }

    /// The role that the agent's stream plays.
    pub closed spec fn stream_role(&self) -> ProgramRole {
        self.stream.role()
    }

    /// The role in whose name the agent reports invalid data.
    pub closed spec fn spec_role(&self) -> ProgramRole {
        self.role
    }

    /// Seconds that a bounded read may take.
    pub closed spec fn spec_timeout(&self) -> u16 {
        self.timeout
    }

    /// Seconds that a bounded read of a frame may take.
    pub closed spec fn stream_timeout(&self) -> u16 {
        self.stream.timeout()
    }

    /// An agent for `stream`.
    pub fn new(stream: QuickTransferStream, role: ProgramRole, timeout: u16) -> (out:
        CommunicationAgent)
        ensures
            out.key() == stream.key(),
            out.stream_role() == stream.role(),
            out.stream_timeout() == stream.timeout(),
            out.role() == role,
            out.timeout() == timeout,
    {
        CommunicationAgent { stream, role, timeout }
    }

    /// The role in whose name the agent reports invalid data.
    #[verifier::when_used_as_spec(spec_role)]
    pub fn role(&self) -> (out: ProgramRole)
        ensures
            out == self.role(),
    {
        self.role
    }

    /// Seconds that a bounded read may take.
    #[verifier::when_used_as_spec(spec_timeout)]
    pub fn timeout(&self) -> (out: u16)
        ensures
            out == self.timeout(),
    {
        self.timeout
    }

    /// Whether the agent's stream seals payloads.
    pub fn is_encrypted(&self) -> (out: bool)
        ensures
            out == self.key() is Some,
    {
        self.stream.is_encrypted()
    }

    /// From now on payloads are sealed under `key`.
    pub fn change_to_encrypted(&mut self, key: [u8; 32])
        ensures
            final(self).key() == Some(key@),
            final(self).stream_role() == old(self).stream_role(),
            final(self).stream_timeout() == old(self).stream_timeout(),
            final(self).role() == old(self).role(),
            final(self).timeout() == old(self).timeout(),
    {
        self.stream.change_to_encrypted(key);
    }

    /// The bytes of a message that travels without a frame.
    pub fn send_bare_message(&self, message: &str) -> (out: Outgoing)
        ensures
            out.bytes@ == message.spec_bytes(),
            out.flush,
    {
        self.stream.send_bare_message(message)
    }

    /// The read that delivers a bare header.
    pub fn bare_header_request(&self) -> (out: ReadRequest)
        ensures
            out == (ReadRequest { count: HEADER_NAME_LENGTH, timeout: Some(self.timeout()) }),
    {
        QuickTransferStream::bare_header_request(self.timeout)
    }

    /// The bare header that a read delivered.
    pub fn receive_bare_message_header(&self, event: ReadEvent) -> (out: Result<
        String,
        QuickTransferError,
    >)
        ensures
            text_view(out) == bare_header(self.stream_role(), event@),
    {
        self.stream.receive_bare_message_header(event)
    }

    /// The read that the reception of a frame needs next.
    pub fn read_request(&self, state: &ReceiveState) -> (out: ReadRequest)
        ensures
            out.count == state.wanted(),
            out.timeout == if state.timed() {
                Some(self.stream_timeout())
            } else {
                None
            },
    {
        self.stream.read_request(state)
    }

    /// Takes the end of one read in the reception of a frame.
    pub fn receive_tcp(&self, state: ReceiveState, event: ReadEvent) -> (out: Result<
        ReceiveStep,
        QuickTransferError,
    >)
        ensures
            step_view(out) == receive_outcome(self.key(), self.stream_role(), state, event@),
    {
        self.stream.receive_tcp(state, event)
    }

    /// Takes a text of `string_length` bytes from the start of `message`.
    pub fn read_string<'a>(&self, message: &'a [u8], string_length: u64) -> (out: Result<
        (String, &'a [u8]),
        QuickTransferError,
    >)
        ensures
            text_rest_view(out) == string_read(self.role(), message@, string_length),
    {
        if string_length > message.len() as u64 {
            return Err(QuickTransferError::SentInvalidData(self.role));
        }
        let length = string_length as usize;
        match text_of_utf8(slice_subrange(message, 0, length)) {
            Some(text) => Ok((text, slice_subrange(message, length, message.len()))),
            None => Err(QuickTransferError::SentInvalidData(self.role)),
        }
    }

    /// Takes the header tag from the start of `message`.
    pub fn read_message_header<'a>(&self, message: &'a [u8]) -> (out: Result<
        (String, &'a [u8]),
        QuickTransferError,
    >)
        ensures
            text_rest_view(out) == header_read(self.role(), message@),
    {
        self.read_string(message, HEADER_NAME_LENGTH as u64)
    }

    /// The header tag of a received message.
    pub fn receive_message_header(&self, message: &[u8]) -> (out: Result<
        String,
        QuickTransferError,
    >)
        ensures
            match header_read(self.role(), message@) {
                Ok((header, _)) => out matches Ok(text) && text@ == header,
                Err(e) => out == Err::<String, QuickTransferError>(e),
            },
    {
        match self.read_message_header(message) {
            Ok((header, _)) => Ok(header),
            Err(e) => Err(e),
        }
    }

    /// Takes the header tag from the start of `message` and makes sure that
    /// it is `message_header`.
    pub fn read_message_header_check<'a>(&self, message: &'a [u8], message_header: &str) -> (out:
        Result<&'a [u8], QuickTransferError>)
        ensures
            rest_view(out) == header_checked(self.role(), message@, message_header@),
    {
        if message.len() < HEADER_NAME_LENGTH {
            return Err(QuickTransferError::SentInvalidData(self.role));
        }
        let tag = slice_subrange(message, 0, HEADER_NAME_LENGTH);
        if text_of_utf8(tag).is_none() {
            return Err(QuickTransferError::SentInvalidData(self.role));
        }
        proof {
            decode_utf8_encode_utf8(tag@);
            vstd::utf8::encode_utf8_decode_utf8(message_header@);
        }
        if same_bytes(tag, message_header.as_bytes()) {
            Ok(slice_subrange(message, HEADER_NAME_LENGTH, message.len()))
        } else {
            Err(QuickTransferError::SentInvalidData(self.role))
        }
    }

    /// Takes a big-endian number of eight bytes from the start of `message`.
    pub fn read_u64<'a>(&self, message: &'a [u8]) -> (out: Result<
        (u64, &'a [u8]),
        QuickTransferError,
    >)
        ensures
            number_rest_view(out) == u64_read(self.role(), message@),
    {
        if message.len() < MESSAGE_LENGTH_LENGTH {
            return Err(QuickTransferError::SentInvalidData(self.role));
        }
        Ok((be_number_of(message), slice_subrange(message, MESSAGE_LENGTH_LENGTH, message.len())))
    }

    /// Takes a text behind its length from the start of `message`.
    pub fn read_length_with_string<'a>(&self, message: &'a [u8]) -> (out: Result<
        (String, &'a [u8]),
        QuickTransferError,
    >)
        ensures
            text_rest_view(out) == counted_string_read(self.role(), message@),
    {
        match self.read_u64(message) {
            Ok((length, rest)) => self.read_string(rest, length),
            Err(e) => Err(e),
        }
    }

    /// Takes the body of an answer, which stands behind its length, from the
    /// start of `message`.
    pub fn read_answer<'a>(&self, message: &'a [u8]) -> (out: Result<
        &'a [u8],
        QuickTransferError,
    >)
        ensures
            rest_view(out) == answer_read(self.role(), message@),
    {
        match self.read_u64(message) {
            Ok((length, rest)) => {
                if length > rest.len() as u64 {
                    return Err(QuickTransferError::SentInvalidData(self.role));
                }
                Ok(slice_subrange(rest, 0, length as usize))
            },
            Err(e) => Err(e),
        }
    }

    /// Frames `message` for the socket.
    pub fn send_tcp(&self, message: &[u8], flush: bool) -> (out: Result<
        Outgoing,
        QuickTransferError,
    >)
        ensures
            frame_sent(self.key(), self.stream_role(), out, message@, flush),
    {
        self.stream.send_tcp(message, flush)
    }

    fn send_named(&self, header: &str, name: &str) -> (out: Result<Outgoing, QuickTransferError>)
        ensures
            frame_sent(
                self.key(),
                self.stream_role(),
                out,
                named_message(header@, name@),
                true,
            ),
    {
        let mut message: Vec<u8> = Vec::new();
        write_bytes(&mut message, header.as_bytes());
        write_u64(&mut message, name.as_bytes().len() as u64);
        write_bytes(&mut message, name.as_bytes());
        assert(message@ =~= named_message(header@, name@));
        self.send_tcp(message.as_slice(), true)
    }

    /// Frames an answer: the header tag, the length of the body, the body.
    pub fn send_answer(&self, message_header: &str, answer: &[u8]) -> (out: Result<
        Outgoing,
        QuickTransferError,
    >)
        ensures
            frame_sent(
                self.key(),
                self.stream_role(),
                out,
                answer_message(message_header@, answer@),
                true,
            ),
    {
        let mut message: Vec<u8> = Vec::new();
        write_bytes(&mut message, message_header.as_bytes());
        write_u64(&mut message, answer.len() as u64);
        write_bytes(&mut message, answer);
        self.send_tcp(message.as_slice(), true)
    }

    /// Frames the description of a directory.
    pub fn send_directory_description(&self, description: &[u8]) -> (out: Result<
        Outgoing,
        QuickTransferError,
    >)
        ensures
            frame_sent(
                self.key(),
                self.stream_role(),
                out,
                answer_message(MESSAGE_DIR@, description@),
                true,
            ),
    {
        self.send_answer(MESSAGE_DIR, description)
    }

    /// Frames the request to change the directory.
    pub fn send_change_directory(&self, directory_name: &str) -> (out: Result<
        Outgoing,
        QuickTransferError,
    >)
        ensures
            frame_sent(
                self.key(),
                self.stream_role(),
                out,
                named_message(MESSAGE_CD@, directory_name@),
                true,
            ),
    {
        self.send_named(MESSAGE_CD, directory_name)
    }

    /// Frames the request to list the current directory.
    pub fn send_list_directory(&self) -> (out: Result<Outgoing, QuickTransferError>)
        ensures
            frame_sent(self.key(), self.stream_role(), out, encode_utf8(MESSAGE_LS@), true),
    {
        self.send_tcp(MESSAGE_LS.as_bytes(), true)
    }

    /// Frames the request to download a file.
    pub fn send_download_request(&self, file_name: &str) -> (out: Result<
        Outgoing,
        QuickTransferError,
    >)
        ensures
            frame_sent(
                self.key(),
                self.stream_role(),
                out,
                named_message(MESSAGE_DOWNLOAD@, file_name@),
                true,
            ),
    {
        self.send_named(MESSAGE_DOWNLOAD, file_name)
    }

    /// Frames the announcement that a download follows, with the file's size.
    pub fn send_download_success(&self, file_size: u64) -> (out: Result<
        Outgoing,
        QuickTransferError,
    >)
        ensures
            frame_sent(
                self.key(),
                self.stream_role(),
                out,
                download_success_message(file_size),
                true,
            ),
    {
        let mut message: Vec<u8> = Vec::new();
        write_bytes(&mut message, MESSAGE_DOWNLOAD_SUCCESS.as_bytes());
        write_u64(&mut message, file_size);
        self.send_tcp(message.as_slice(), true)
    }

    /// Frames the message that opens an upload. The file's bytes follow in
    /// frames of their own.
    pub fn send_upload(&self, file_size: u64, file_name: &str) -> (out: Result<
        Outgoing,
        QuickTransferError,
    >)
        ensures
            frame_sent(
                self.key(),
                self.stream_role(),
                out,
                upload_message(file_name@, file_size),
                true,
            ),
    {
        let mut message: Vec<u8> = Vec::new();
        write_bytes(&mut message, MESSAGE_UPLOAD.as_bytes());
        write_u64(&mut message, file_name.as_bytes().len() as u64);
        write_bytes(&mut message, file_name.as_bytes());
        write_u64(&mut message, file_size);
        assert(message@ =~= upload_message(file_name@, file_size));
        self.send_tcp(message.as_slice(), true)
    }

    /// Frames the request to create a directory.
    pub fn send_mkdir(&self, directory_name: &str) -> (out: Result<Outgoing, QuickTransferError>)
        ensures
            frame_sent(
                self.key(),
                self.stream_role(),
                out,
                named_message(MESSAGE_MKDIR@, directory_name@),
                true,
            ),
    {
        self.send_named(MESSAGE_MKDIR, directory_name)
    }

    /// Frames the request to rename an entry.
    pub fn send_rename_request(&self, file_name: &str, new_name: &str) -> (out: Result<
        Outgoing,
        QuickTransferError,
    >)
        ensures
            frame_sent(
                self.key(),
                self.stream_role(),
                out,
                rename_message(file_name@, new_name@),
                true,
            ),
    {
        let mut message: Vec<u8> = Vec::new();
        write_bytes(&mut message, MESSAGE_RENAME.as_bytes());
        write_u64(&mut message, file_name.as_bytes().len() as u64);
        write_bytes(&mut message, file_name.as_bytes());
        write_u64(&mut message, new_name.as_bytes().len() as u64);
        write_bytes(&mut message, new_name.as_bytes());
        assert(message@ =~= rename_message(file_name@, new_name@));
        self.send_tcp(message.as_slice(), true)
    }

    /// Frames the request to remove an entry.
    pub fn send_remove_request(&self, file_name: &str) -> (out: Result<
        Outgoing,
        QuickTransferError,
    >)
        ensures
            frame_sent(
                self.key(),
                self.stream_role(),
                out,
                named_message(MESSAGE_REMOVE@, file_name@),
                true,
            ),
    {
        self.send_named(MESSAGE_REMOVE, file_name)
    }

    /// Starts the sending of a file of `file_size` bytes. Each chunk that
    /// the sending hands out goes through `send_tcp`, flushed as the
    /// sending says.
    pub fn send_file(&self, file_size: u64, file_path: String) -> (out: FileSending)
        ensures
            out.remaining() == file_size,
            out.path() == file_path@,
    {
        FileSending::new(file_size, file_path)
    }

    /// Starts the reception of a file of `file_size` bytes. With `try_all`
    /// a failed write does not end the reception: the bytes that follow are
    /// taken in and dropped.
    pub fn receive_file(&self, file_size: u64, file_path: String, try_all: bool) -> (out:
        FileReception)
        ensures
            out@ == (ReceptionState {
                remaining: file_size as nat,
                tolerate_write_failure: try_all,
                discarding: false,
            }),
            out.role() == self.role(),
            out.path() == file_path@,
    {
        FileReception::new(file_size, file_path, try_all, self.role)
    }

    /// Frames the message that ends the session.
    pub fn send_disconnect_message(&self) -> (out: Result<Outgoing, QuickTransferError>)
        ensures
            frame_sent(self.key(), self.stream_role(), out, encode_utf8(MESSAGE_DISCONNECT@), true),
    {
        self.send_tcp(MESSAGE_DISCONNECT.as_bytes(), true)
    }
}

} // verus!
