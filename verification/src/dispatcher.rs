//! The server's side of a session: the handshake, the requests it reads, and
//! the states it goes through.

use crate::agent::{
    counted_string_read, counted_text, header_read, lemma_counted_string_read, lemma_header_read,
    lemma_u64_read, named_message, rename_message, u64_read, upload_message, CommunicationAgent,
};
use crate::cursor::{
    cd_refusal, cd_target, is_plain_name, plain_name, within, FilesystemCursor, PathProbe,
    ServedPath,
};
use crate::encoding::{same_text, u64_be_bytes};
use crate::error::{ProgramRole, QuickTransferError};
use crate::messages::{
    CdAnswer, FileFail, UploadResult, MESSAGE_CD, MESSAGE_DISCONNECT, MESSAGE_DOWNLOAD, MESSAGE_INIT,
    MESSAGE_INIT_ENC, MESSAGE_LS, MESSAGE_MKDIR, MESSAGE_NOT_ENC, MESSAGE_OK, MESSAGE_REMOVE,
    MESSAGE_RENAME, MESSAGE_UPLOAD,
};
use crate::transfer::{FileReception, ReceptionState};
use std::path::Path;
use vstd::prelude::*;
use vstd::utf8::encode_utf8;

verus! {

/// Where a session stands.
#[derive(Copy, Clone, Debug, PartialEq, Eq, Structural)]
pub enum SessionState {
    /// The connection is made, the handshake is due.
    Connected,
    /// The handshake is done, the next request is awaited.
    AwaitingRequest,
    /// The session has ended.
    Disconnected,
}

/// How the server answers the client's first message.
#[derive(Copy, Clone, Debug, PartialEq, Eq, Structural)]
pub enum Handshake {
    /// The session goes on in the clear.
    Plain,
    /// The session goes on sealed under the server's key.
    Encrypted,
    /// The client asked for encryption and the server has no key.
    RefuseEncryption,
    /// The first message was no greeting.
    Invalid,
}

/// The answer to a client's first message: a greeting in the clear is
/// accepted, one that asks for encryption is accepted where the server has
/// a key and refused where it has none, and anything else is invalid.
pub open spec fn handshake_for(header: Seq<char>, key_available: bool) -> Handshake {
    if header == MESSAGE_INIT@ {
        Handshake::Plain
    } else if header == MESSAGE_INIT_ENC@ {
        if key_available {
            Handshake::Encrypted
        } else {
            Handshake::RefuseEncryption
        }
    } else {
        Handshake::Invalid
    }
}

impl Handshake {
    /// The bare header sent back to the client, if any.
    pub open spec fn reply_text(self) -> Option<Seq<char>> {
        match self {
            Handshake::Plain | Handshake::Encrypted => Some(MESSAGE_OK@),
            Handshake::RefuseEncryption => Some(MESSAGE_NOT_ENC@),
            Handshake::Invalid => None,
        }
    }

    /// The bare header sent back to the client, if any.
    pub fn reply(&self) -> (out: Option<&'static str>)
        ensures
            match self.reply_text() {
                Some(text) => out matches Some(header) && header@ == text,
                None => out is None,
            },
    {
        match self {
            Handshake::Plain => Some(MESSAGE_OK),
            Handshake::Encrypted => Some(MESSAGE_OK),
            Handshake::RefuseEncryption => Some(MESSAGE_NOT_ENC),
            Handshake::Invalid => None,
        }
    }

    /// Whether the session goes on.
    pub open spec fn accepted(self) -> bool {
        self is Plain || self is Encrypted
    }
}

/// A request, as the server has read it from a message.
#[derive(Clone, Debug, PartialEq, Eq)]
pub enum Request {
    Cd(String),
    Ls,
    Download(String),
    Upload { file_name: String, file_size: u64 },
    Mkdir(String),
    Rename { file_name: String, new_name: String },
    Remove(String),
    Disconnect,
    /// A message with a header that names no request.
    Invalid,
}

/// A request, with its texts as sequences.
pub enum RequestView {
    Cd(Seq<char>),
    Ls,
    Download(Seq<char>),
    Upload { file_name: Seq<char>, file_size: u64 },
    Mkdir(Seq<char>),
    Rename { file_name: Seq<char>, new_name: Seq<char> },
    Remove(Seq<char>),
    Disconnect,
    Invalid,
}

impl View for Request {
    type V = RequestView;

    open spec fn view(&self) -> RequestView {
        match *self {
            Request::Cd(name) => RequestView::Cd(name@),
            Request::Ls => RequestView::Ls,
            Request::Download(name) => RequestView::Download(name@),
            Request::Upload { file_name, file_size } => RequestView::Upload {
                file_name: file_name@,
                file_size,
            },
            Request::Mkdir(name) => RequestView::Mkdir(name@),
            Request::Rename { file_name, new_name } => RequestView::Rename {
                file_name: file_name@,
                new_name: new_name@,
            },
            Request::Remove(name) => RequestView::Remove(name@),
            Request::Disconnect => RequestView::Disconnect,
            Request::Invalid => RequestView::Invalid,
        }
    }
}

/// The request that stands behind the header of an upload.
pub open spec fn upload_read(role: ProgramRole, body: Seq<u8>) -> Result<
    RequestView,
    QuickTransferError,
> {
    match counted_string_read(role, body) {
        Err(e) => Err(e),
        Ok((file_name, rest)) => match u64_read(role, rest) {
            Err(e) => Err(e),
            Ok((file_size, _)) => Ok(RequestView::Upload { file_name, file_size }),
        },
    }
}

/// The request that stands behind the header of a renaming.
pub open spec fn rename_read(role: ProgramRole, body: Seq<u8>) -> Result<
    RequestView,
    QuickTransferError,
> {
    match counted_string_read(role, body) {
        Err(e) => Err(e),
        Ok((file_name, rest)) => match counted_string_read(role, rest) {
            Err(e) => Err(e),
            Ok((new_name, _)) => Ok(RequestView::Rename { file_name, new_name }),
        },
    }
}

/// The request that a message holds. A message too short for what its
/// header announces, or with a text that is no UTF-8, is invalid data; a
/// header that names no request gives the invalid request.
pub open spec fn request_read(role: ProgramRole, message: Seq<u8>) -> Result<
    RequestView,
    QuickTransferError,
> {
    match header_read(role, message) {
        Err(e) => Err(e),
        Ok((header, body)) => if header == MESSAGE_CD@ {
            match counted_string_read(role, body) {
                Ok((name, _)) => Ok(RequestView::Cd(name)),
                Err(e) => Err(e),
            }
        } else if header == MESSAGE_LS@ {
            Ok(RequestView::Ls)
        } else if header == MESSAGE_DOWNLOAD@ {
            match counted_string_read(role, body) {
                Ok((name, _)) => Ok(RequestView::Download(name)),
                Err(e) => Err(e),
            }
        } else if header == MESSAGE_UPLOAD@ {
            upload_read(role, body)
        } else if header == MESSAGE_MKDIR@ {
            match counted_string_read(role, body) {
                Ok((name, _)) => Ok(RequestView::Mkdir(name)),
                Err(e) => Err(e),
            }
        } else if header == MESSAGE_RENAME@ {
            rename_read(role, body)
        } else if header == MESSAGE_REMOVE@ {
            match counted_string_read(role, body) {
                Ok((name, _)) => Ok(RequestView::Remove(name)),
                Err(e) => Err(e),
            }
        } else if header == MESSAGE_DISCONNECT@ {
            Ok(RequestView::Disconnect)
        } else {
            Ok(RequestView::Invalid)
        },
    }
}

/// The tags that open a request are eight bytes each on the wire, and no two
/// of them are the same.
pub proof fn lemma_request_tags()
    ensures
        encode_utf8(MESSAGE_CD@).len() == 8,
        encode_utf8(MESSAGE_LS@).len() == 8,
        encode_utf8(MESSAGE_DOWNLOAD@).len() == 8,
        encode_utf8(MESSAGE_UPLOAD@).len() == 8,
        encode_utf8(MESSAGE_MKDIR@).len() == 8,
        encode_utf8(MESSAGE_RENAME@).len() == 8,
        encode_utf8(MESSAGE_REMOVE@).len() == 8,
        encode_utf8(MESSAGE_DISCONNECT@).len() == 8,
        MESSAGE_CD@[0] == 'C',
        MESSAGE_LS@[0] == 'L',
        MESSAGE_DOWNLOAD@[0] == 'D' && MESSAGE_DOWNLOAD@[1] == 'O',
        MESSAGE_UPLOAD@[0] == 'U',
        MESSAGE_MKDIR@[0] == 'M',
        MESSAGE_RENAME@[0] == 'R' && MESSAGE_RENAME@[2] == 'N',
        MESSAGE_REMOVE@[0] == 'R' && MESSAGE_REMOVE@[2] == 'M',
        MESSAGE_DISCONNECT@[0] == 'D' && MESSAGE_DISCONNECT@[1] == 'I',
{
    reveal_strlit("CD______");
    reveal_strlit("LS______");
    reveal_strlit("DOWNLOAD");
    reveal_strlit("UPLOAD__");
    reveal_strlit("MKDIR___");
    reveal_strlit("RENAME__");
    reveal_strlit("REMOVE__");
    reveal_strlit("DISCONN_");
    vstd::utf8::is_ascii_chars_encode_utf8(MESSAGE_CD@);
    vstd::utf8::is_ascii_chars_encode_utf8(MESSAGE_LS@);
    vstd::utf8::is_ascii_chars_encode_utf8(MESSAGE_DOWNLOAD@);
    vstd::utf8::is_ascii_chars_encode_utf8(MESSAGE_UPLOAD@);
    vstd::utf8::is_ascii_chars_encode_utf8(MESSAGE_MKDIR@);
    vstd::utf8::is_ascii_chars_encode_utf8(MESSAGE_RENAME@);
    vstd::utf8::is_ascii_chars_encode_utf8(MESSAGE_REMOVE@);
    vstd::utf8::is_ascii_chars_encode_utf8(MESSAGE_DISCONNECT@);
}

proof fn lemma_tags_differ()
    ensures
        MESSAGE_CD@ != MESSAGE_LS@,
        MESSAGE_CD@ != MESSAGE_DOWNLOAD@,
        MESSAGE_LS@ != MESSAGE_DOWNLOAD@,
        MESSAGE_CD@ != MESSAGE_UPLOAD@,
        MESSAGE_LS@ != MESSAGE_UPLOAD@,
        MESSAGE_DOWNLOAD@ != MESSAGE_UPLOAD@,
        MESSAGE_CD@ != MESSAGE_MKDIR@,
        MESSAGE_LS@ != MESSAGE_MKDIR@,
        MESSAGE_DOWNLOAD@ != MESSAGE_MKDIR@,
        MESSAGE_UPLOAD@ != MESSAGE_MKDIR@,
        MESSAGE_CD@ != MESSAGE_RENAME@,
        MESSAGE_LS@ != MESSAGE_RENAME@,
        MESSAGE_DOWNLOAD@ != MESSAGE_RENAME@,
        MESSAGE_UPLOAD@ != MESSAGE_RENAME@,
        MESSAGE_MKDIR@ != MESSAGE_RENAME@,
        MESSAGE_CD@ != MESSAGE_REMOVE@,
        MESSAGE_LS@ != MESSAGE_REMOVE@,
        MESSAGE_DOWNLOAD@ != MESSAGE_REMOVE@,
        MESSAGE_UPLOAD@ != MESSAGE_REMOVE@,
        MESSAGE_MKDIR@ != MESSAGE_REMOVE@,
        MESSAGE_RENAME@ != MESSAGE_REMOVE@,
        MESSAGE_CD@ != MESSAGE_DISCONNECT@,
        MESSAGE_LS@ != MESSAGE_DISCONNECT@,
        MESSAGE_DOWNLOAD@ != MESSAGE_DISCONNECT@,
        MESSAGE_UPLOAD@ != MESSAGE_DISCONNECT@,
        MESSAGE_MKDIR@ != MESSAGE_DISCONNECT@,
        MESSAGE_RENAME@ != MESSAGE_DISCONNECT@,
        MESSAGE_REMOVE@ != MESSAGE_DISCONNECT@,
{
    lemma_request_tags();
}

proof fn lemma_named_request(role: ProgramRole, header: Seq<char>, name: Seq<char>)
    requires
        encode_utf8(header).len() == 8,
        encode_utf8(name).len() <= u64::MAX,
    ensures
        header_read(role, named_message(header, name)) == Ok::<
            (Seq<char>, Seq<u8>),
            QuickTransferError,
        >((header, counted_text(name))),
        counted_string_read(role, counted_text(name)) == Ok::<
            (Seq<char>, Seq<u8>),
            QuickTransferError,
        >((name, Seq::<u8>::empty())),
{
    let nothing = Seq::<u8>::empty();
    let counted = counted_text(name);
    assert(counted =~= counted + nothing);
    lemma_counted_string_read(role, name, nothing);
    lemma_header_read(role, header, counted);
}

proof fn lemma_bare_request(role: ProgramRole, header: Seq<char>)
    requires
        encode_utf8(header).len() == 8,
    ensures
        header_read(role, encode_utf8(header)) == Ok::<(Seq<char>, Seq<u8>), QuickTransferError>(
            (header, Seq::<u8>::empty()),
        ),
{
    let nothing = Seq::<u8>::empty();
    assert(encode_utf8(header) =~= encode_utf8(header) + nothing);
    lemma_header_read(role, header, nothing);
}

proof fn lemma_cd_understood(role: ProgramRole, name: Seq<char>)
    requires
        encode_utf8(name).len() <= u64::MAX,
    ensures
        request_read(role, named_message(MESSAGE_CD@, name)) == Ok::<RequestView, QuickTransferError>(RequestView::Cd(name)),
{
    lemma_request_tags();
    lemma_named_request(role, MESSAGE_CD@, name);
}

proof fn lemma_ls_understood(role: ProgramRole)
    ensures
        request_read(role, encode_utf8(MESSAGE_LS@)) == Ok::<RequestView, QuickTransferError>(RequestView::Ls),
{
    lemma_request_tags();
    lemma_tags_differ();
    lemma_bare_request(role, MESSAGE_LS@);
}

proof fn lemma_download_understood(role: ProgramRole, name: Seq<char>)
    requires
        encode_utf8(name).len() <= u64::MAX,
    ensures
        request_read(role, named_message(MESSAGE_DOWNLOAD@, name)) == Ok::<RequestView, QuickTransferError>(RequestView::Download(name)),
{
    lemma_request_tags();
    lemma_tags_differ();
    lemma_named_request(role, MESSAGE_DOWNLOAD@, name);
}

proof fn lemma_upload_body(role: ProgramRole, name: Seq<char>, file_size: u64)
    requires
        encode_utf8(name).len() <= u64::MAX,
    ensures
        upload_read(role, counted_text(name) + u64_be_bytes(file_size)) == Ok::<
            RequestView,
            QuickTransferError,
        >(RequestView::Upload { file_name: name, file_size }),
{
    let nothing = Seq::<u8>::empty();
    let size = u64_be_bytes(file_size);
    lemma_counted_string_read(role, name, size);
    assert(size =~= size + nothing);
    lemma_u64_read(role, file_size, nothing);
}

proof fn lemma_upload_understood(role: ProgramRole, name: Seq<char>, file_size: u64)
    requires
        encode_utf8(name).len() <= u64::MAX,
    ensures
        request_read(role, upload_message(name, file_size)) == Ok::<
            RequestView,
            QuickTransferError,
        >(RequestView::Upload { file_name: name, file_size }),
{
    lemma_request_tags();
    lemma_tags_differ();
    let body = counted_text(name) + u64_be_bytes(file_size);
    assert(upload_message(name, file_size) =~= encode_utf8(MESSAGE_UPLOAD@) + body);
    lemma_header_read(role, MESSAGE_UPLOAD@, body);
    lemma_upload_body(role, name, file_size);
}

proof fn lemma_mkdir_understood(role: ProgramRole, name: Seq<char>)
    requires
        encode_utf8(name).len() <= u64::MAX,
    ensures
        request_read(role, named_message(MESSAGE_MKDIR@, name)) == Ok::<RequestView, QuickTransferError>(RequestView::Mkdir(name)),
{
    lemma_request_tags();
    lemma_tags_differ();
    lemma_named_request(role, MESSAGE_MKDIR@, name);
}

proof fn lemma_rename_body(role: ProgramRole, name: Seq<char>, new_name: Seq<char>)
    requires
        encode_utf8(name).len() <= u64::MAX,
        encode_utf8(new_name).len() <= u64::MAX,
    ensures
        rename_read(role, counted_text(name) + counted_text(new_name)) == Ok::<
            RequestView,
            QuickTransferError,
        >(RequestView::Rename { file_name: name, new_name }),
{
    let nothing = Seq::<u8>::empty();
    let second = counted_text(new_name);
    lemma_counted_string_read(role, name, second);
    assert(second =~= second + nothing);
    lemma_counted_string_read(role, new_name, nothing);
}

proof fn lemma_rename_understood(role: ProgramRole, name: Seq<char>, new_name: Seq<char>)
    requires
        encode_utf8(name).len() <= u64::MAX,
        encode_utf8(new_name).len() <= u64::MAX,
    ensures
        request_read(role, rename_message(name, new_name)) == Ok::<
            RequestView,
            QuickTransferError,
        >(RequestView::Rename { file_name: name, new_name }),
{
    lemma_request_tags();
    lemma_tags_differ();
    let body = counted_text(name) + counted_text(new_name);
    assert(rename_message(name, new_name) =~= encode_utf8(MESSAGE_RENAME@) + body);
    lemma_header_read(role, MESSAGE_RENAME@, body);
    lemma_rename_body(role, name, new_name);
}

proof fn lemma_remove_understood(role: ProgramRole, name: Seq<char>)
    requires
        encode_utf8(name).len() <= u64::MAX,
    ensures
        request_read(role, named_message(MESSAGE_REMOVE@, name)) == Ok::<RequestView, QuickTransferError>(RequestView::Remove(name)),
{
    lemma_request_tags();
    lemma_tags_differ();
    lemma_named_request(role, MESSAGE_REMOVE@, name);
}

proof fn lemma_disconnect_understood(role: ProgramRole)
    ensures
        request_read(role, encode_utf8(MESSAGE_DISCONNECT@)) == Ok::<RequestView, QuickTransferError>(RequestView::Disconnect),
{
    lemma_request_tags();
    lemma_tags_differ();
    lemma_bare_request(role, MESSAGE_DISCONNECT@);
}

/// The server reads each request as the client's agent wrote it: the
/// message that the agent frames for a request holds that request, with the
/// names and the size it was given.
pub proof fn lemma_requests_are_understood(
    role: ProgramRole,
    name: Seq<char>,
    new_name: Seq<char>,
    file_size: u64,
)
    requires
        encode_utf8(name).len() <= u64::MAX,
        encode_utf8(new_name).len() <= u64::MAX,
    ensures
        request_read(role, named_message(MESSAGE_CD@, name)) == Ok::<RequestView, QuickTransferError>(RequestView::Cd(name)),
        request_read(role, encode_utf8(MESSAGE_LS@)) == Ok::<RequestView, QuickTransferError>(RequestView::Ls),
        request_read(role, named_message(MESSAGE_DOWNLOAD@, name)) == Ok::<RequestView, QuickTransferError>(RequestView::Download(name)),
        request_read(role, upload_message(name, file_size)) == Ok::<RequestView, QuickTransferError>(RequestView::Upload { file_name: name, file_size }),
        request_read(role, named_message(MESSAGE_MKDIR@, name)) == Ok::<RequestView, QuickTransferError>(RequestView::Mkdir(name)),
        request_read(role, rename_message(name, new_name)) == Ok::<RequestView, QuickTransferError>(RequestView::Rename { file_name: name, new_name }),
        request_read(role, named_message(MESSAGE_REMOVE@, name)) == Ok::<RequestView, QuickTransferError>(RequestView::Remove(name)),
        request_read(role, encode_utf8(MESSAGE_DISCONNECT@)) == Ok::<RequestView, QuickTransferError>(RequestView::Disconnect),
{
    lemma_cd_understood(role, name);
    lemma_ls_understood(role);
    lemma_download_understood(role, name);
    lemma_upload_understood(role, name, file_size);
    lemma_mkdir_understood(role, name);
    lemma_rename_understood(role, name, new_name);
    lemma_remove_understood(role, name);
    lemma_disconnect_understood(role);
}

/// A request or the failure to read one, with texts as sequences.
pub open spec fn request_view(read: Result<Request, QuickTransferError>) -> Result<
    RequestView,
    QuickTransferError,
> {
    match read {
        Ok(request) => Ok(request@),
        Err(e) => Err(e),
    }
}

/// Reads the request that a message holds.
pub fn read_request(agent: &CommunicationAgent, message: &[u8]) -> (out: Result<
    Request,
    QuickTransferError,
>)
    ensures
        request_view(out) == request_read(agent.role(), message@),
{
    let (header, body) = match agent.read_message_header(message) {
        Ok(parts) => parts,
        Err(e) => {
            return Err(e);
        },
    };
    let header = header.as_str();
    if same_text(header, MESSAGE_CD) {
        match agent.read_length_with_string(body) {
            Ok((name, _)) => Ok(Request::Cd(name)),
            Err(e) => Err(e),
        }
    } else if same_text(header, MESSAGE_LS) {
        Ok(Request::Ls)
    } else if same_text(header, MESSAGE_DOWNLOAD) {
        match agent.read_length_with_string(body) {
            Ok((name, _)) => Ok(Request::Download(name)),
            Err(e) => Err(e),
        }
    } else if same_text(header, MESSAGE_UPLOAD) {
        let (file_name, rest) = match agent.read_length_with_string(body) {
            Ok(parts) => parts,
            Err(e) => {
                return Err(e);
            },
        };
        match agent.read_u64(rest) {
            Ok((file_size, _)) => Ok(Request::Upload { file_name, file_size }),
            Err(e) => Err(e),
        }
    } else if same_text(header, MESSAGE_MKDIR) {
        match agent.read_length_with_string(body) {
            Ok((name, _)) => Ok(Request::Mkdir(name)),
            Err(e) => Err(e),
        }
    } else if same_text(header, MESSAGE_RENAME) {
        let (file_name, rest) = match agent.read_length_with_string(body) {
            Ok(parts) => parts,
            Err(e) => {
                return Err(e);
            },
        };
        match agent.read_length_with_string(rest) {
            Ok((new_name, _)) => Ok(Request::Rename { file_name, new_name }),
            Err(e) => Err(e),
        }
    } else if same_text(header, MESSAGE_REMOVE) {
        match agent.read_length_with_string(body) {
            Ok((name, _)) => Ok(Request::Remove(name)),
            Err(e) => Err(e),
        }
    } else if same_text(header, MESSAGE_DISCONNECT) {
        Ok(Request::Disconnect)
    } else {
        Ok(Request::Invalid)
    }
}

/// `std::path::Path::file_name`, as text: the final component of a path, if
/// it has one and that is text. Nothing is claimed of it.
#[verifier::external_body]
fn final_component(name: &str) -> (out: Option<String>) {
    match Path::new(name).file_name() {
        Some(component) => match component.to_str() {
            Some(text) => Some(String::from(text)),
            None => None,
        },
        None => None,
    }
}

/// The name under which an upload is stored, chosen from the name that the
/// client sent and the final component of it, if it has one: the final
/// component, or else the name as sent, and in either case only where that
/// can name nothing but an entry of the current directory.
pub fn choose_upload_name(file_name: String, base_name: Option<String>) -> (out: Option<String>)
    ensures
        ({
            let candidate = match base_name {
                Some(base) => base,
                None => file_name,
            };
            out == if plain_name(encode_utf8(candidate@)) {
                Some(candidate)
            } else {
                None
            }
        }),
{
    let candidate = match base_name {
        Some(base) => base,
        None => file_name,
    };
    if is_plain_name(candidate.as_str()) {
        Some(candidate)
    } else {
        None
    }
}

/// The name under which an upload is stored: the final component of the
/// name that the client sent. Whatever the client sent, the name returned
/// can name nothing but an entry of the current directory; where there is no
/// such name, the upload has no place and is to be drained.
pub fn upload_name(file_name: String) -> (out: Option<String>)
    ensures
        out matches Some(name) ==> plain_name(encode_utf8(name@)),
{
    let base_name = final_component(file_name.as_str());
    choose_upload_name(file_name, base_name)
}

/// What the server does with an upload once it has tried to make the file.
#[derive(Clone, Debug, PartialEq, Eq)]
pub struct UploadPlan {
    /// The answer to send before any byte of the file is read, if any.
    pub answer_before: Option<UploadResult>,
    /// The reception that takes in the bytes of the file.
    pub reception: FileReception,
    /// The answer to send once every byte has been taken in, if any.
    pub answer_after: Option<UploadResult>,
}

/// Plans an upload. Where the file could not be made the client is told so
/// at once, and the announced bytes are still taken in and dropped, so that
/// the next request is read from where the client put it. Where the file was
/// made the bytes are written to it, a failed write does not end the
/// session, and the client is told of the success at the end.
pub fn plan_upload(created: bool, file_size: u64, file_path: String, role: ProgramRole) -> (out:
    UploadPlan)
    ensures
        out.reception.role() == role,
        out.reception.path() == file_path@,
        out.reception@ == (ReceptionState {
            remaining: file_size as nat,
            tolerate_write_failure: true,
            discarding: !created,
        }),
        out.answer_before == if created {
            None
        } else {
            Some(UploadResult::Fail(FileFail::ErrorCreatingFile))
        },
        out.answer_after == if created {
            Some(UploadResult::Success)
        } else {
            None
        },
{
    if created {
        UploadPlan {
            answer_before: None,
            reception: FileReception::new(file_size, file_path, true, role),
            answer_after: Some(UploadResult::Success),
        }
    } else {
        UploadPlan {
            answer_before: Some(UploadResult::Fail(FileFail::ErrorCreatingFile)),
            reception: FileReception::without_file(file_size, file_path, role),
            answer_after: None,
        }
    }
}

/// What the caller does after a request has been read.
#[derive(Clone, Debug, PartialEq, Eq)]
pub enum Dispatch {
    /// Serve the request and come back for the next one.
    Serve(Request),
    /// The peer has said goodbye: close, and report a disconnection that
    /// the peer began.
    PeerDisconnected,
    /// The peer broke the protocol: log it, close, and report a
    /// disconnection that the peer began.
    ProtocolViolation,
    /// The session is not awaiting a request: nothing is done.
    Ignored,
}

/// The server's side of one session: its state and its place in the tree.
#[derive(Debug)]
pub struct ServerSession {
    state: SessionState,
    cursor: FilesystemCursor,
}

impl ServerSession {
    /// Where the session stands.
    pub closed spec fn spec_state(&self) -> SessionState {
        self.state
    }

    /// The current directory.
    pub closed spec fn current(&self) -> Seq<Seq<char>> {
        self.cursor.current()
    }

    /// The root of the served tree.
    pub closed spec fn root(&self) -> Seq<Seq<char>> {
        self.cursor.root()
    }

    /// A session on a fresh connection, at the root of the served tree.
    pub fn new(root: ServedPath) -> (out: ServerSession)
        ensures
            out.state() == SessionState::Connected,
            out.root() == root@,
            out.current() == root@,
    {
        ServerSession { state: SessionState::Connected, cursor: FilesystemCursor::new(root) }
    }

    /// Where the session stands.
    #[verifier::when_used_as_spec(spec_state)]
    pub fn state(&self) -> (out: SessionState)
        ensures
            out == self.state(),
    {
        self.state
    }

    /// The session's place in the tree.
    pub fn cursor(&self) -> (out: &FilesystemCursor)
        ensures
            out.current() == self.current(),
            out.root() == self.root(),
    {
        &self.cursor
    }

    /// Decides a request to change the directory, and moves to the target
    /// where it is entered. Wherever the request leads, the current
    /// directory lies within the root afterwards.
    pub fn change_directory(&mut self, probe: PathProbe) -> (out: Option<CdAnswer>)
        ensures
            out == cd_refusal(old(self).current(), old(self).root(), probe@),
            final(self).current() == cd_target(old(self).current(), old(self).root(), probe@),
            final(self).root() == old(self).root(),
            final(self).state() == old(self).state(),
            within(final(self).root(), final(self).current()),
    {
        self.cursor.change_directory(probe)
    }

    /// Takes the client's first message. The session goes on where the
    /// greeting is accepted and ends where it is not; a session that is past
    /// its handshake takes any first message as invalid and ends.
    pub fn handshake(&mut self, header: &str, key_available: bool) -> (out: Handshake)
        ensures
            out == if old(self).state() == SessionState::Connected {
                handshake_for(header@, key_available)
            } else {
                Handshake::Invalid
            },
            final(self).state() == if out.accepted() {
                SessionState::AwaitingRequest
            } else {
                SessionState::Disconnected
            },
            final(self).current() == old(self).current(),
            final(self).root() == old(self).root(),
    {
        let out = if !matches!(self.state, SessionState::Connected) {
            Handshake::Invalid
        } else if same_text(header, MESSAGE_INIT) {
            Handshake::Plain
        } else if same_text(header, MESSAGE_INIT_ENC) {
            if key_available {
                Handshake::Encrypted
            } else {
                Handshake::RefuseEncryption
            }
        } else {
            Handshake::Invalid
        };
        self.state = match out {
            Handshake::Plain => SessionState::AwaitingRequest,
            Handshake::Encrypted => SessionState::AwaitingRequest,
            _ => SessionState::Disconnected,
        };
        out
    }

    /// Takes a request that was read. While requests are awaited, a goodbye
    /// and a message that names no request end the session, and any other
    /// request is to be served; in any other state nothing happens.
    pub fn dispatch(&mut self, request: Request) -> (out: Dispatch)
        ensures
            final(self).current() == old(self).current(),
            final(self).root() == old(self).root(),
            out == if old(self).state() != SessionState::AwaitingRequest {
                Dispatch::Ignored
            } else if request is Disconnect {
                Dispatch::PeerDisconnected
            } else if request is Invalid {
                Dispatch::ProtocolViolation
            } else {
                Dispatch::Serve(request)
            },
            final(self).state() == if out is PeerDisconnected || out is ProtocolViolation {
                SessionState::Disconnected
            } else {
                old(self).state()
            },
    {
        if !matches!(self.state, SessionState::AwaitingRequest) {
            return Dispatch::Ignored;
        }
        match request {
            Request::Disconnect => {
                self.state = SessionState::Disconnected;
                Dispatch::PeerDisconnected
            },
            Request::Invalid => {
                self.state = SessionState::Disconnected;
                Dispatch::ProtocolViolation
            },
            other => Dispatch::Serve(other),
        }
    }

    /// Takes the supervisor's call to end: a session that is still open is
    /// to send its peer the disconnect message, and ends. Says whether the
    /// message is to be sent.
    pub fn shut_down(&mut self) -> (out: bool)
        ensures
            out == (old(self).state() != SessionState::Disconnected),
            final(self).state() == SessionState::Disconnected,
            final(self).current() == old(self).current(),
            final(self).root() == old(self).root(),
    {
        let open = !matches!(self.state, SessionState::Disconnected);
        self.state = SessionState::Disconnected;
        open
    }

    /// Takes note that the connection has failed: the session ends.
    pub fn fail(&mut self)
        ensures
            final(self).state() == SessionState::Disconnected,
            final(self).current() == old(self).current(),
            final(self).root() == old(self).root(),
    {
        self.state = SessionState::Disconnected;
    }
}

} // verus!
