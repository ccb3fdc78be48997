//! The transport framer: one message in, one length-prefixed frame out, and
//! back, plain or sealed under a shared key.

use crate::cipher::{
    aes256_gcm_open, aes256_gcm_seal, aes_decrypt, aes_encrypt, bincode_envelope,
    bincode_envelope_parts, envelope_bytes, envelope_parts, lemma_envelope_round_trip,
    os_random_nonce, NONCE_LENGTH, SEAL_LIMIT,
};
use crate::encoding::{
    be_number_of, lemma_u64_be_round_trip, text_of_utf8, u64_be_bytes, u64_from_be_bytes,
    write_bytes, write_u64,
};
use crate::error::{map_tcp_error, tcp_error, IoErrorKind, ProgramRole, QuickTransferError};
use crate::messages::HEADER_NAME_LENGTH;
use vstd::prelude::*;
use vstd::slice::slice_subrange;
use vstd::string::StringSliceAdditionalSpecFns;
use vstd::utf8::{decode_utf8, valid_utf8};

verus! {

/// A payload behind its length as eight big-endian bytes.
pub open spec fn frame_bytes(payload: Seq<u8>) -> Seq<u8> {
    u64_be_bytes(payload.len() as u64) + payload
}

/// The payload that carries `message`: the message itself where no key is
/// set, else the envelope of the nonce and the message sealed under it.
/// Nothing where the nonce has the wrong length or the cipher refuses.
pub open spec fn sealed_payload(key: Option<Seq<u8>>, nonce: Seq<u8>, message: Seq<u8>) -> Option<
    Seq<u8>,
> {
    match key {
        None => Some(message),
        Some(k) => if nonce.len() != NONCE_LENGTH {
            None
        } else {
            match aes256_gcm_seal(k, nonce, message) {
                Some(sealed) => Some(envelope_bytes(nonce, sealed)),
                None => None,
            }
        },
    }
}

/// The frame written for `message`.
pub open spec fn written_frame(key: Option<Seq<u8>>, nonce: Seq<u8>, message: Seq<u8>) -> Option<
    Seq<u8>,
> {
    match sealed_payload(key, nonce, message) {
        Some(payload) => Some(frame_bytes(payload)),
        None => None,
    }
}

/// The message that a payload carries. A sealed payload that is no envelope
/// with a 12-byte nonce is invalid data; one whose tag does not match fails
/// to decipher.
pub open spec fn opened_payload(key: Option<Seq<u8>>, role: ProgramRole, payload: Seq<u8>) -> Result<
    Seq<u8>,
    QuickTransferError,
> {
    match key {
        None => Ok(payload),
        Some(k) => match envelope_parts(payload) {
            None => Err(QuickTransferError::SentInvalidData(role)),
            Some((nonce, sealed)) => if nonce.len() != NONCE_LENGTH {
                Err(QuickTransferError::SentInvalidData(role))
            } else {
                match aes256_gcm_open(k, nonce, sealed) {
                    Some(message) => Ok(message),
                    None => Err(QuickTransferError::Deciphering),
                }
            },
        },
    }
}

/// The message that a whole frame carries. Bytes that are not exactly a
/// length and that many bytes of payload are invalid data.
pub open spec fn frame_contents(key: Option<Seq<u8>>, role: ProgramRole, wire: Seq<u8>) -> Result<
    Seq<u8>,
    QuickTransferError,
> {
    if wire.len() < 8 || wire.len() - 8 != u64_from_be_bytes(wire) {
        Err(QuickTransferError::SentInvalidData(role))
    } else {
        opened_payload(key, role, wire.subrange(8, wire.len() as int))
    }
}

/// The bytes of a received message, or the failure.
pub open spec fn received_view(received: Result<Vec<u8>, QuickTransferError>) -> Result<
    Seq<u8>,
    QuickTransferError,
> {
    match received {
        Ok(bytes) => Ok(bytes@),
        Err(e) => Err(e),
    }
}

/// A frame carries what its payload carries.
pub proof fn lemma_frame_contents(key: Option<Seq<u8>>, role: ProgramRole, payload: Seq<u8>)
    requires
        payload.len() <= u64::MAX,
    ensures
        frame_contents(key, role, frame_bytes(payload)) == opened_payload(key, role, payload),
{
    let wire = frame_bytes(payload);
    lemma_u64_be_round_trip(payload.len() as u64, payload);
    assert(wire.subrange(8, wire.len() as int) =~= payload);
}

/// A plain frame carries the message it was written for.
pub proof fn lemma_plain_frame_round_trip(role: ProgramRole, nonce: Seq<u8>, message: Seq<u8>)
    requires
        message.len() <= u64::MAX,
    ensures
        written_frame(None, nonce, message) == Some(frame_bytes(message)),
        frame_contents(None, role, frame_bytes(message)) == Ok::<Seq<u8>, QuickTransferError>(
            message,
        ),
{
    lemma_frame_contents(None, role, message);
}

/// A sealed frame carries the message it was written for, given a cipher
/// that opens what it sealed.
pub proof fn lemma_sealed_frame_round_trip(
    key: Seq<u8>,
    role: ProgramRole,
    nonce: Seq<u8>,
    message: Seq<u8>,
)
    requires
        written_frame(Some(key), nonce, message) is Some,
        aes256_gcm_seal(key, nonce, message)->0.len() + 28 <= u64::MAX,
        aes256_gcm_open(key, nonce, aes256_gcm_seal(key, nonce, message)->0) == Some(message),
    ensures
        frame_contents(Some(key), role, written_frame(Some(key), nonce, message)->0) == Ok::<
            Seq<u8>,
            QuickTransferError,
        >(message),
{
    let sealed = aes256_gcm_seal(key, nonce, message)->0;
    let payload = envelope_bytes(nonce, sealed);
    assert(nonce.len() == NONCE_LENGTH);
    assert(payload.len() == 28 + sealed.len());
    assert(written_frame(Some(key), nonce, message) == Some(frame_bytes(payload)));
    lemma_envelope_round_trip(nonce, sealed);
    assert(opened_payload(Some(key), role, payload) == Ok::<Seq<u8>, QuickTransferError>(message));
    lemma_frame_contents(Some(key), role, payload);
}

/// What holds of the outcome of framing `message` for the socket. Without a
/// key the frame is always made; with one, never for a message longer than
/// the cipher takes. A frame that was made is the frame written for
/// `message` under some nonce, it carries `message` when it is read back
/// under the same key, and it is flushed as asked. Sealing is all that can
/// fail.
pub open spec fn frame_sent(
    key: Option<Seq<u8>>,
    role: ProgramRole,
    out: Result<Outgoing, QuickTransferError>,
    message: Seq<u8>,
    flush: bool,
) -> bool {
    &&& key is None ==> out is Ok
    &&& key is Some && message.len() > SEAL_LIMIT ==> out is Err
    &&& out matches Ok(outgoing) ==> {
        &&& outgoing.flush == flush
        &&& frame_contents(key, role, outgoing.bytes@) == Ok::<Seq<u8>, QuickTransferError>(message)
        &&& exists|nonce: Seq<u8>| #[trigger]
            written_frame(key, nonce, message) == Some(outgoing.bytes@)
    }
    &&& out matches Err(e) ==> e == QuickTransferError::Ciphering
}

/// How a stream treats its payloads.
#[derive(Copy, Clone, Debug)]
pub enum QuickTransferStreamOption {
    Unencrypted,
    Encrypted { key: [u8; 32] },
}

/// Bytes for the socket, and whether the socket is flushed after them.
#[derive(Clone, Debug, PartialEq, Eq)]
pub struct Outgoing {
    pub bytes: Vec<u8>,
    pub flush: bool,
}

/// What the caller is asked to read from the socket: exactly `count` bytes,
/// within `timeout` seconds where one is given.
#[derive(Copy, Clone, Debug, PartialEq, Eq, Structural)]
pub struct ReadRequest {
    pub count: usize,
    pub timeout: Option<u16>,
}

/// How a read from the socket ended.
#[derive(Clone, Debug, PartialEq, Eq)]
pub enum ReadEvent {
    /// The bytes that were read.
    Bytes(Vec<u8>),
    /// The time allowed for the read has passed.
    TimedOut,
    /// The read failed.
    Failed(IoErrorKind),
}

/// A read's end, with the bytes as a sequence.
pub enum ReadEventView {
    Bytes(Seq<u8>),
    TimedOut,
    Failed(IoErrorKind),
}

impl View for ReadEvent {
    type V = ReadEventView;

    open spec fn view(&self) -> ReadEventView {
        match *self {
            ReadEvent::Bytes(bytes) => ReadEventView::Bytes(bytes@),
            ReadEvent::TimedOut => ReadEventView::TimedOut,
            ReadEvent::Failed(kind) => ReadEventView::Failed(kind),
        }
    }
}

/// How far the reception of one frame has come.
#[derive(Copy, Clone, Debug, PartialEq, Eq, Structural)]
pub enum ReceiveState {
    /// Idle: the first byte of the length may take any time to arrive.
    AwaitFirstByte,
    /// The first byte of the length is here, seven are to come.
    AwaitLengthRest { first: u8 },
    /// A request is outstanding: all eight bytes of the length are due.
    AwaitLength,
    /// The length is known, the payload is due.
    AwaitPayload { length: usize },
}

/// What a read has led to.
#[derive(Clone, Debug, PartialEq, Eq)]
pub enum ReceiveStep {
    /// Another read is needed, in the given state.
    Read(ReceiveState),
    /// The frame is complete and carried this message.
    Message(Vec<u8>),
}

/// The end of a step of reception, with the message as a sequence.
pub enum ReceiveOutcome {
    Read(ReceiveState),
    Message(Seq<u8>),
    Failed(QuickTransferError),
}

/// The outcome that an executable step stands for.
pub open spec fn step_view(step: Result<ReceiveStep, QuickTransferError>) -> ReceiveOutcome {
    match step {
        Ok(ReceiveStep::Read(state)) => ReceiveOutcome::Read(state),
        Ok(ReceiveStep::Message(bytes)) => ReceiveOutcome::Message(bytes@),
        Err(e) => ReceiveOutcome::Failed(e),
    }
}

impl ReceiveState {
    /// The state in which reception starts. With `wait` the first byte is
    /// awaited without a limit on time.
    pub fn start(wait: bool) -> (out: ReceiveState)
        ensures
            out == if wait {
                ReceiveState::AwaitFirstByte
            } else {
                ReceiveState::AwaitLength
            },
    {
        if wait {
            ReceiveState::AwaitFirstByte
        } else {
            ReceiveState::AwaitLength
        }
    }

    /// The number of bytes that the next read has to deliver.
    pub open spec fn wanted(self) -> nat {
        match self {
            ReceiveState::AwaitFirstByte => 1,
            ReceiveState::AwaitLengthRest { .. } => 7,
            ReceiveState::AwaitLength => 8,
            ReceiveState::AwaitPayload { length } => length as nat,
        }
    }

    /// Whether the next read is bounded in time: all are but the one for the
    /// first byte of an idle connection.
    pub open spec fn timed(self) -> bool {
        self != ReceiveState::AwaitFirstByte
    }
}

/// The state after the eight bytes of a length have arrived: the payload is
/// due, unless its length does not fit this machine.
pub open spec fn length_outcome(role: ProgramRole, prefix: Seq<u8>) -> ReceiveOutcome {
    let length = u64_from_be_bytes(prefix);
    if length > usize::MAX {
        ReceiveOutcome::Failed(QuickTransferError::SentInvalidData(role))
    } else {
        ReceiveOutcome::Read(ReceiveState::AwaitPayload { length: length as usize })
    }
}

/// What one read leads to in the reception of a frame.
pub open spec fn receive_outcome(
    key: Option<Seq<u8>>,
    role: ProgramRole,
    state: ReceiveState,
    event: ReadEventView,
) -> ReceiveOutcome {
    match event {
        ReadEventView::TimedOut => ReceiveOutcome::Failed(
            QuickTransferError::MessageReceiveTimeout(role),
        ),
        ReadEventView::Failed(kind) => ReceiveOutcome::Failed(tcp_error(kind, role)),
        ReadEventView::Bytes(bytes) => if bytes.len() != state.wanted() {
            ReceiveOutcome::Failed(QuickTransferError::MessageReceive(role))
        } else {
            match state {
                ReceiveState::AwaitFirstByte => ReceiveOutcome::Read(
                    ReceiveState::AwaitLengthRest { first: bytes[0] },
                ),
                ReceiveState::AwaitLengthRest { first } => length_outcome(
                    role,
                    seq![first] + bytes,
                ),
                ReceiveState::AwaitLength => length_outcome(role, bytes),
                ReceiveState::AwaitPayload { .. } => match opened_payload(key, role, bytes) {
                    Ok(message) => ReceiveOutcome::Message(message),
                    Err(e) => ReceiveOutcome::Failed(e),
                },
            }
        },
    }
}

/// The text of a bare header, read without a frame around it.
pub open spec fn bare_header(role: ProgramRole, event: ReadEventView) -> Result<
    Seq<char>,
    QuickTransferError,
> {
    match event {
        ReadEventView::TimedOut => Err(QuickTransferError::MessageReceiveTimeout(role)),
        ReadEventView::Failed(kind) => Err(tcp_error(kind, role)),
        ReadEventView::Bytes(bytes) => if bytes.len() != HEADER_NAME_LENGTH {
            Err(QuickTransferError::MessageReceive(role))
        } else if !valid_utf8(bytes) {
            Err(QuickTransferError::SentInvalidData(role))
        } else {
            Ok(decode_utf8(bytes))
        },
    }
}

/// The text of a received string, or the failure.
pub open spec fn text_view(received: Result<String, QuickTransferError>) -> Result<
    Seq<char>,
    QuickTransferError,
> {
    match received {
        Ok(text) => Ok(text@),
        Err(e) => Err(e),
    }
}

/// Reading a written frame on an idle connection, where the first byte of
/// the length comes in a read of its own, leads to the read of the payload
/// as reading the length in one piece does.
pub proof fn lemma_idle_reception_of_length(
    key: Option<Seq<u8>>,
    role: ProgramRole,
    prefix: Seq<u8>,
)
    requires
        prefix.len() == 8,
    ensures
        receive_outcome(
            key,
            role,
            ReceiveState::AwaitFirstByte,
            ReadEventView::Bytes(prefix.subrange(0, 1)),
        ) == ReceiveOutcome::Read(ReceiveState::AwaitLengthRest { first: prefix[0] }),
        receive_outcome(
            key,
            role,
            ReceiveState::AwaitLengthRest { first: prefix[0] },
            ReadEventView::Bytes(prefix.subrange(1, 8)),
        ) == receive_outcome(key, role, ReceiveState::AwaitLength, ReadEventView::Bytes(prefix)),
{
    assert(seq![prefix[0]] + prefix.subrange(1, 8) =~= prefix);
}

/// Reading a written frame in two reads, the length and the payload, leads
/// to the message that the payload carries.
pub proof fn lemma_reception_of_frame(key: Option<Seq<u8>>, role: ProgramRole, payload: Seq<u8>)
    requires
        payload.len() <= usize::MAX,
    ensures
        receive_outcome(
            key,
            role,
            ReceiveState::AwaitLength,
            ReadEventView::Bytes(frame_bytes(payload).subrange(0, 8)),
        ) == ReceiveOutcome::Read(ReceiveState::AwaitPayload { length: payload.len() as usize }),
        receive_outcome(
            key,
            role,
            ReceiveState::AwaitPayload { length: payload.len() as usize },
            ReadEventView::Bytes(frame_bytes(payload).subrange(8, 8 + payload.len() as int)),
        ) == match opened_payload(key, role, payload) {
            Ok(message) => ReceiveOutcome::Message(message),
            Err(e) => ReceiveOutcome::Failed(e),
        },
{
    let wire = frame_bytes(payload);
    let prefix = wire.subrange(0, 8);
    lemma_u64_be_round_trip(payload.len() as u64, Seq::<u8>::empty());
    assert(prefix =~= u64_be_bytes(payload.len() as u64) + Seq::<u8>::empty());
    assert(wire.subrange(8, 8 + payload.len() as int) =~= payload);
}

/// One end of a connection, as far as framing goes: whether payloads are
/// sealed and under which key, which role this end plays, and how long a
/// read may take.
#[derive(Clone, Debug)]
pub struct QuickTransferStream {
    option: QuickTransferStreamOption,
    role: ProgramRole,
    timeout: u16,
}

impl QuickTransferStream {
    /// The key under which payloads are sealed, if any.
    pub closed spec fn key(&self) -> Option<Seq<u8>> {
        match self.option {
            QuickTransferStreamOption::Unencrypted => None,
            QuickTransferStreamOption::Encrypted { key } => Some(key@),
        }
    }

    /// The role of this end.
    pub closed spec fn spec_role(&self) -> ProgramRole {
        self.role
    }

    /// Seconds that a bounded read may take.
    pub closed spec fn spec_timeout(&self) -> u16 {
        self.timeout
    }

    /// A stream whose payloads are the messages themselves.
    pub fn new_unencrypted(role: ProgramRole, timeout: u16) -> (out: QuickTransferStream)
        ensures
            out.key() is None,
            out.role() == role,
            out.timeout() == timeout,
    {
        QuickTransferStream { option: QuickTransferStreamOption::Unencrypted, role, timeout }
    }

    /// A stream whose payloads are sealed under `key`.
    pub fn new_encrypted(key: [u8; 32], role: ProgramRole, timeout: u16) -> (out:
        QuickTransferStream)
        ensures
            out.key() == Some(key@),
            out.role() == role,
            out.timeout() == timeout,
    {
        QuickTransferStream { option: QuickTransferStreamOption::Encrypted { key }, role, timeout }
    }

    /// From now on payloads are sealed under `key`.
    pub fn change_to_encrypted(&mut self, key: [u8; 32])
        ensures
            final(self).key() == Some(key@),
            final(self).role() == old(self).role(),
            final(self).timeout() == old(self).timeout(),
    {
        self.option = QuickTransferStreamOption::Encrypted { key };
    }

    /// The role of this end.
    #[verifier::when_used_as_spec(spec_role)]
    pub fn role(&self) -> (out: ProgramRole)
        ensures
            out == self.role(),
    {
        self.role
    }

    /// Seconds that a bounded read may take.
    #[verifier::when_used_as_spec(spec_timeout)]
    pub fn timeout(&self) -> (out: u16)
        ensures
            out == self.timeout(),
    {
        self.timeout
    }

    /// Whether payloads are sealed.
    pub fn is_encrypted(&self) -> (out: bool)
        ensures
            out == self.key() is Some,
    {
        match self.option {
            QuickTransferStreamOption::Unencrypted => false,
            QuickTransferStreamOption::Encrypted { .. } => true,
        }
    }

    /// Writes the frame for `message` with the given nonce. The nonce is not
    /// looked at where payloads are not sealed. Sealing fails exactly where
    /// the nonce is not of twelve bytes or the message is longer than the
    /// cipher takes. The frame, read back by the same kind of stream,
    /// carries `message`.
    pub fn seal_frame(&self, nonce: &[u8], message: &[u8]) -> (out: Result<
        Vec<u8>,
        QuickTransferError,
    >)
        ensures
            match written_frame(self.key(), nonce@, message@) {
                Some(wire) => out matches Ok(bytes) && bytes@ == wire,
                None => out == Err::<Vec<u8>, QuickTransferError>(QuickTransferError::Ciphering),
            },
            out matches Ok(bytes) ==> frame_contents(self.key(), self.role(), bytes@) == Ok::<
                Seq<u8>,
                QuickTransferError,
            >(message@),
            out is Ok <==> self.key() is None || (nonce@.len() == NONCE_LENGTH && message@.len()
                <= SEAL_LIMIT),
    {
        let mut wire: Vec<u8> = Vec::new();
        match &self.option {
            QuickTransferStreamOption::Unencrypted => {
                write_u64(&mut wire, message.len() as u64);
                write_bytes(&mut wire, message);
                proof {
                    lemma_plain_frame_round_trip(self.role, nonce@, message@);
                    assert(wire@ =~= frame_bytes(message@));
                }
                Ok(wire)
            },
            QuickTransferStreamOption::Encrypted { key } => {
                if nonce.len() != NONCE_LENGTH {
                    return Err(QuickTransferError::Ciphering);
                }
                let sealed = match aes_encrypt(key, nonce, message) {
                    Some(sealed) => sealed,
                    None => {
                        return Err(QuickTransferError::Ciphering);
                    },
                };
                let nonce_owned = vstd::slice::slice_to_vec(nonce);
                let payload = match bincode_envelope(&nonce_owned, &sealed) {
                    Some(payload) => payload,
                    None => {
                        return Err(QuickTransferError::Ciphering);
                    },
                };
                write_u64(&mut wire, payload.len() as u64);
                write_bytes(&mut wire, payload.as_slice());
                proof {
                    assert(wire@ =~= frame_bytes(payload@));
                    lemma_sealed_frame_round_trip(key@, self.role, nonce@, message@);
                }
                Ok(wire)
            },
        }
    }

    /// Frames `message` for the socket. Where payloads are sealed, a fresh
    /// random nonce seals this frame; that can fail, and then nothing is to be
    /// written. The frame, read back by the same kind of stream, carries
    /// `message`.
    pub fn send_tcp(&self, message: &[u8], flush: bool) -> (out: Result<
        Outgoing,
        QuickTransferError,
    >)
        ensures
            frame_sent(self.key(), self.role(), out, message@, flush),
    {
        let nonce = match &self.option {
            QuickTransferStreamOption::Unencrypted => Vec::new(),
            QuickTransferStreamOption::Encrypted { .. } => match os_random_nonce() {
                Some(nonce) => nonce,
                None => {
                    return Err(QuickTransferError::Ciphering);
                },
            },
        };
        match self.seal_frame(nonce.as_slice(), message) {
            Ok(bytes) => {
                assert(written_frame(self.key(), nonce@, message@) == Some(bytes@));
                Ok(Outgoing { bytes, flush })
            },
            Err(e) => Err(e),
        }
    }

    /// The bytes of a message that travels without a frame, as the two sides
    /// exchange them before the mode of the connection is agreed.
    pub fn send_bare_message(&self, message: &str) -> (out: Outgoing)
        ensures
            out.bytes@ == message.spec_bytes(),
            out.flush,
    {
        Outgoing { bytes: vstd::slice::slice_to_vec(message.as_bytes()), flush: true }
    }

    /// The read that delivers a bare header.
    pub fn bare_header_request(timeout: u16) -> (out: ReadRequest)
        ensures
            out == (ReadRequest { count: HEADER_NAME_LENGTH, timeout: Some(timeout) }),
    {
        ReadRequest { count: HEADER_NAME_LENGTH, timeout: Some(timeout) }
    }

    /// The bare header that a read delivered.
    pub fn receive_bare_message_header(&self, event: ReadEvent) -> (out: Result<
        String,
        QuickTransferError,
    >)
        ensures
            text_view(out) == bare_header(self.role(), event@),
    {
        match event {
            ReadEvent::TimedOut => Err(QuickTransferError::MessageReceiveTimeout(self.role)),
            ReadEvent::Failed(kind) => Err(map_tcp_error(kind, self.role)),
            ReadEvent::Bytes(bytes) => {
                if bytes.len() != HEADER_NAME_LENGTH {
                    return Err(QuickTransferError::MessageReceive(self.role));
                }
                match text_of_utf8(bytes.as_slice()) {
                    Some(text) => Ok(text),
                    None => Err(QuickTransferError::SentInvalidData(self.role)),
                }
            },
        }
    }

    /// The message that a payload carries.
    pub fn open_frame(&self, payload: &[u8]) -> (out: Result<Vec<u8>, QuickTransferError>)
        ensures
            received_view(out) == opened_payload(self.key(), self.role(), payload@),
    {
        match &self.option {
            QuickTransferStreamOption::Unencrypted => Ok(vstd::slice::slice_to_vec(payload)),
            QuickTransferStreamOption::Encrypted { key } => {
                let (nonce, sealed) = match bincode_envelope_parts(payload) {
                    Some(parts) => parts,
                    None => {
                        return Err(QuickTransferError::SentInvalidData(self.role));
                    },
                };
                if nonce.len() != NONCE_LENGTH {
                    return Err(QuickTransferError::SentInvalidData(self.role));
                }
                match aes_decrypt(key, nonce.as_slice(), sealed.as_slice()) {
                    Some(message) => Ok(message),
                    None => Err(QuickTransferError::Deciphering),
                }
            },
        }
    }

    /// The message that a whole frame carries.
    pub fn read_frame(&self, wire: &[u8]) -> (out: Result<Vec<u8>, QuickTransferError>)
        ensures
            received_view(out) == frame_contents(self.key(), self.role(), wire@),
    {
        if wire.len() < 8 {
            return Err(QuickTransferError::SentInvalidData(self.role));
        }
        let length = be_number_of(wire);
        if (wire.len() - 8) as u64 != length {
            return Err(QuickTransferError::SentInvalidData(self.role));
        }
        self.open_frame(slice_subrange(wire, 8, wire.len()))
    }

    /// The read that the reception of a frame needs next.
    pub fn read_request(&self, state: &ReceiveState) -> (out: ReadRequest)
        ensures
            out.count == state.wanted(),
            out.timeout == if state.timed() {
                Some(self.timeout())
            } else {
                None
            },
    {
        match state {
            ReceiveState::AwaitFirstByte => ReadRequest { count: 1, timeout: None },
            ReceiveState::AwaitLengthRest { .. } => ReadRequest {
                count: 7,
                timeout: Some(self.timeout),
            },
            ReceiveState::AwaitLength => ReadRequest { count: 8, timeout: Some(self.timeout) },
            ReceiveState::AwaitPayload { length } => ReadRequest {
                count: *length,
                timeout: Some(self.timeout),
            },
        }
    }

    /// Takes the end of one read in the reception of a frame: a read that
    /// timed out or failed ends the reception, as does one that delivered
    /// another number of bytes than was asked for; the bytes of the length
    /// lead to the read of the payload; the payload leads to the message.
    pub fn receive_tcp(&self, state: ReceiveState, event: ReadEvent) -> (out: Result<
        ReceiveStep,
        QuickTransferError,
    >)
        ensures
            step_view(out) == receive_outcome(self.key(), self.role(), state, event@),
    {
        let bytes = match event {
            ReadEvent::TimedOut => {
                return Err(QuickTransferError::MessageReceiveTimeout(self.role));
            },
            ReadEvent::Failed(kind) => {
                return Err(map_tcp_error(kind, self.role));
            },
            ReadEvent::Bytes(bytes) => bytes,
        };
        match state {
            ReceiveState::AwaitFirstByte => {
                if bytes.len() != 1 {
                    return Err(QuickTransferError::MessageReceive(self.role));
                }
                Ok(ReceiveStep::Read(ReceiveState::AwaitLengthRest { first: bytes[0] }))
            },
            ReceiveState::AwaitLengthRest { first } => {
                if bytes.len() != 7 {
                    return Err(QuickTransferError::MessageReceive(self.role));
                }
                let mut prefix: Vec<u8> = Vec::new();
                prefix.push(first);
                write_bytes(&mut prefix, bytes.as_slice());
                assert(prefix@ =~= seq![first] + bytes@);
                self.length_step(prefix.as_slice())
            },
            ReceiveState::AwaitLength => {
                if bytes.len() != 8 {
                    return Err(QuickTransferError::MessageReceive(self.role));
                }
                self.length_step(bytes.as_slice())
            },
            ReceiveState::AwaitPayload { length } => {
                if bytes.len() != length {
                    return Err(QuickTransferError::MessageReceive(self.role));
                }
                match self.open_frame(bytes.as_slice()) {
                    Ok(message) => Ok(ReceiveStep::Message(message)),
                    Err(e) => Err(e),
                }
            },
        }
    }

    fn length_step(&self, prefix: &[u8]) -> (out: Result<ReceiveStep, QuickTransferError>)
        requires
            prefix@.len() == 8,
        ensures
            step_view(out) == length_outcome(self.role(), prefix@),
    {
        let length = be_number_of(prefix);
        if length > usize::MAX as u64 {
            return Err(QuickTransferError::SentInvalidData(self.role));
        }
        Ok(ReceiveStep::Read(ReceiveState::AwaitPayload { length: length as usize }))
    }
}

} // verus!
