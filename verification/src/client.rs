//! The client's side of a session: what the user typed, the request it
//! stands for, and what the answer means to the user.

use crate::agent::{
    answer_message, answer_read, download_success_message, header_read, lemma_answer_read,
    lemma_header_read, lemma_u64_read, u64_read, CommunicationAgent,
};
use crate::console::{
    first_word, first_word_length, framed, split_at_whitespace, split_once_whitespace,
    split_two_arguments, trim, trimmed, two_arguments, word_length,
};
use crate::encoding::{same_text, u64_be_bytes};
use crate::error::{ProgramRole, QuickTransferError};
use crate::messages::{
    CdAnswer, DirectoryContents, FileFail, MessageDirectoryContents, MkdirAnswer, RemoveAnswer,
    RenameAnswer, UploadResult, MESSAGE_DISCONNECT, MESSAGE_DOWNLOAD_FAIL,
    MESSAGE_DOWNLOAD_SUCCESS, MESSAGE_INIT, MESSAGE_INIT_ENC, MESSAGE_NOT_ENC, MESSAGE_OK,
};
use vstd::prelude::*;
use vstd::string::{StrSliceExecFns, StringExecFns};
use vstd::utf8::encode_utf8;

verus! {

/// What is said of a directory name that is missing or empty.
pub const INVALID_DIR_NAME_MESSAGE: &'static str =
    "`directory_name` should be either the name of a directory in current view, \".\" or \"..\".";

/// The name behind a command that takes a directory, or the line that tells
/// the user how the command is used.
pub open spec fn directory_name_parsed(input: Seq<char>, usage: Seq<char>) -> Result<
    Seq<char>,
    Seq<char>,
> {
    match split_at_whitespace(input) {
        None => Err("Usage: `"@ + usage + "`. "@ + INVALID_DIR_NAME_MESSAGE@),
        Some((_, name)) => if name.len() == 0 {
            Err("Error: `directory_name` cannot be empty. "@ + INVALID_DIR_NAME_MESSAGE@)
        } else {
            Ok(name)
        },
    }
}

/// The path behind a command that takes a file, or the line that tells the
/// user how the command is used.
pub open spec fn file_name_parsed(
    input: Seq<char>,
    command: Seq<char>,
    file_path_name: Seq<char>,
) -> Result<Seq<char>, Seq<char>> {
    match split_at_whitespace(input) {
        None => Err(
            "Usage: `"@ + command + "`. "@ + file_path_name
                + "` should be either the path of a file relative to current view."@,
        ),
        Some((_, name)) => if name.len() == 0 {
            Err("Note: `"@ + file_path_name + "` cannot be empty. "@)
        } else {
            Ok(name)
        },
    }
}

/// The two names behind the command that renames, or the line that tells
/// the user which one is missing.
pub open spec fn two_names_parsed(input: Seq<char>) -> Result<(Seq<char>, Seq<char>), Seq<char>> {
    let names = two_arguments(input);
    if names.0.len() == 0 {
        Err(
            "Note: `file_dir_path` should be either the path of a file relative to current view.. "@,
        )
    } else if names.1.len() == 0 {
        Err("Note: `new_name` cannot be empty. "@)
    } else {
        Ok(names)
    }
}

/// A parsed text or the line for the user, as sequences.
pub open spec fn parsed_view(parsed: Result<String, String>) -> Result<Seq<char>, Seq<char>> {
    match parsed {
        Ok(text) => Ok(text@),
        Err(text) => Err(text@),
    }
}

/// Two parsed texts or the line for the user, as sequences.
pub open spec fn parsed_pair_view(parsed: Result<(String, String), String>) -> Result<
    (Seq<char>, Seq<char>),
    Seq<char>,
> {
    match parsed {
        Ok((first, second)) => Ok((first@, second@)),
        Err(text) => Err(text@),
    }
}

/// Takes the directory name from a line that starts with a command.
pub fn parse_directory_name(input: &str, usage: &str) -> (out: Result<String, String>)
    ensures
        parsed_view(out) == directory_name_parsed(input@, usage@),
{
    match split_once_whitespace(input) {
        None => {
            let mut text = framed("Usage: `", usage, "`. ");
            text.append(INVALID_DIR_NAME_MESSAGE);
            Err(text)
        },
        Some((_, name)) => {
            if name.unicode_len() == 0 {
                let mut text = String::from_str("Error: `directory_name` cannot be empty. ");
                text.append(INVALID_DIR_NAME_MESSAGE);
                Err(text)
            } else {
                Ok(String::from_str(name))
            }
        },
    }
}

/// Takes the file's path from a line that starts with a command.
pub fn parse_file_name(input: &str, command: &str, file_path_name: &str) -> (out: Result<
    String,
    String,
>)
    ensures
        parsed_view(out) == file_name_parsed(input@, command@, file_path_name@),
{
    match split_once_whitespace(input) {
        None => {
            let mut text = framed("Usage: `", command, "`. ");
            text.append(file_path_name);
            text.append("` should be either the path of a file relative to current view.");
            Err(text)
        },
        Some((_, name)) => {
            if name.unicode_len() == 0 {
                Err(framed("Note: `", file_path_name, "` cannot be empty. "))
            } else {
                Ok(String::from_str(name))
            }
        },
    }
}

/// Takes the entry's path and its new name from a line that starts with a
/// command.
pub fn parse_file_dir_name_and_name(input: &str) -> (out: Result<(String, String), String>)
    ensures
        parsed_pair_view(out) == two_names_parsed(input@),
{
    let (first, second) = split_two_arguments(input);
    if first.unicode_len() == 0 {
        Err(
            String::from_str(
                "Note: `file_dir_path` should be either the path of a file relative to current view.. ",
            ),
        )
    } else if second.unicode_len() == 0 {
        Err(String::from_str("Note: `new_name` cannot be empty. "))
    } else {
        Ok((String::from_str(first), String::from_str(second)))
    }
}

/// What the user asked for.
#[derive(Clone, Debug, PartialEq, Eq)]
pub enum ClientCommand {
    Cd(String),
    Ls,
    Download(String),
    Upload(String),
    Mkdir(String),
    Mv(String, String),
    Rm(String),
    Clear,
    Exit,
    Help,
    /// A command that was not used as it is meant to be, with the line that
    /// says so.
    Misuse(String),
    /// A command that does not exist.
    Unknown(String),
    /// Nothing was typed.
    Empty,
}

/// A command, with its texts as sequences.
pub enum ClientCommandView {
    Cd(Seq<char>),
    Ls,
    Download(Seq<char>),
    Upload(Seq<char>),
    Mkdir(Seq<char>),
    Mv(Seq<char>, Seq<char>),
    Rm(Seq<char>),
    Clear,
    Exit,
    Help,
    Misuse(Seq<char>),
    Unknown(Seq<char>),
    Empty,
}

impl View for ClientCommand {
    type V = ClientCommandView;

    open spec fn view(&self) -> ClientCommandView {
        match *self {
            ClientCommand::Cd(name) => ClientCommandView::Cd(name@),
            ClientCommand::Ls => ClientCommandView::Ls,
            ClientCommand::Download(name) => ClientCommandView::Download(name@),
            ClientCommand::Upload(name) => ClientCommandView::Upload(name@),
            ClientCommand::Mkdir(name) => ClientCommandView::Mkdir(name@),
            ClientCommand::Mv(name, new_name) => ClientCommandView::Mv(name@, new_name@),
            ClientCommand::Rm(name) => ClientCommandView::Rm(name@),
            ClientCommand::Clear => ClientCommandView::Clear,
            ClientCommand::Exit => ClientCommandView::Exit,
            ClientCommand::Help => ClientCommandView::Help,
            ClientCommand::Misuse(text) => ClientCommandView::Misuse(text@),
            ClientCommand::Unknown(command) => ClientCommandView::Unknown(command@),
            ClientCommand::Empty => ClientCommandView::Empty,
        }
    }
}

/// The command that a line stands for. The line is trimmed; its first word
/// names the command, and what stands behind the first white space is the
/// argument, taken as it is.
pub open spec fn command_parsed(line: Seq<char>) -> ClientCommandView {
    let input = trimmed(line);
    let command = first_word(input);
    if input.len() == 0 {
        ClientCommandView::Empty
    } else if command == "cd"@ {
        match directory_name_parsed(input, "cd <directory_name>"@) {
            Ok(name) => ClientCommandView::Cd(name),
            Err(text) => ClientCommandView::Misuse(text),
        }
    } else if command == "ls"@ {
        if word_length(input) < input.len() {
            ClientCommandView::Misuse("Usage: `ls`"@)
        } else {
            ClientCommandView::Ls
        }
    } else if command == "download"@ {
        match file_name_parsed(input, "download <file_path>"@, "<file_path>"@) {
            Ok(name) => ClientCommandView::Download(name),
            Err(text) => ClientCommandView::Misuse(text),
        }
    } else if command == "upload"@ {
        match file_name_parsed(input, "upload <file_path>"@, "<file_path>"@) {
            Ok(name) => ClientCommandView::Upload(name),
            Err(text) => ClientCommandView::Misuse(text),
        }
    } else if command == "mkdir"@ {
        match directory_name_parsed(input, "mkdir <directory_name>"@) {
            Ok(name) => ClientCommandView::Mkdir(name),
            Err(text) => ClientCommandView::Misuse(text),
        }
    } else if command == "mv"@ {
        match two_names_parsed(input) {
            Ok((name, new_name)) => ClientCommandView::Mv(name, new_name),
            Err(text) => ClientCommandView::Misuse(text),
        }
    } else if command == "rm"@ {
        match file_name_parsed(input, "rm <file_dir_path>"@, "<file_dir_path>"@) {
            Ok(name) => ClientCommandView::Rm(name),
            Err(text) => ClientCommandView::Misuse(text),
        }
    } else if command == "clear"@ {
        ClientCommandView::Clear
    } else if command == "exit"@ || command == "disconnect"@ || command == "quit"@ {
        ClientCommandView::Exit
    } else if command == "help"@ {
        ClientCommandView::Help
    } else {
        ClientCommandView::Unknown(command)
    }
}

/// Reads the command that the user typed.
pub fn parse_command(line: &str) -> (out: ClientCommand)
    ensures
        out@ == command_parsed(line@),
{
    let input = trim(line);
    let length = input.unicode_len();
    if length == 0 {
        return ClientCommand::Empty;
    }
    let word = first_word_length(input);
    let command = input.substring_char(0, word);
    if same_text(command, "cd") {
        match parse_directory_name(input, "cd <directory_name>") {
            Ok(name) => ClientCommand::Cd(name),
            Err(text) => ClientCommand::Misuse(text),
        }
    } else if same_text(command, "ls") {
        if word < length {
            ClientCommand::Misuse(String::from_str("Usage: `ls`"))
        } else {
            ClientCommand::Ls
        }
    } else if same_text(command, "download") {
        match parse_file_name(input, "download <file_path>", "<file_path>") {
            Ok(name) => ClientCommand::Download(name),
            Err(text) => ClientCommand::Misuse(text),
        }
    } else if same_text(command, "upload") {
        match parse_file_name(input, "upload <file_path>", "<file_path>") {
            Ok(name) => ClientCommand::Upload(name),
            Err(text) => ClientCommand::Misuse(text),
        }
    } else if same_text(command, "mkdir") {
        match parse_directory_name(input, "mkdir <directory_name>") {
            Ok(name) => ClientCommand::Mkdir(name),
            Err(text) => ClientCommand::Misuse(text),
        }
    } else if same_text(command, "mv") {
        match parse_file_dir_name_and_name(input) {
            Ok((name, new_name)) => ClientCommand::Mv(name, new_name),
            Err(text) => ClientCommand::Misuse(text),
        }
    } else if same_text(command, "rm") {
        match parse_file_name(input, "rm <file_dir_path>", "<file_dir_path>") {
            Ok(name) => ClientCommand::Rm(name),
            Err(text) => ClientCommand::Misuse(text),
        }
    } else if same_text(command, "clear") {
        ClientCommand::Clear
    } else if same_text(command, "exit") || same_text(command, "disconnect") || same_text(
        command,
        "quit",
    ) {
        ClientCommand::Exit
    } else if same_text(command, "help") {
        ClientCommand::Help
    } else {
        ClientCommand::Unknown(String::from_str(command))
    }
}

/// The line that tells the user that a command does not exist.
pub fn unknown_command_notice(command: &str) -> (out: Notice)
    ensures
        out.text@ == "Error: Command `"@ + command@ + "` does not exist!"@,
        out.is_error,
{
    Notice { text: framed("Error: Command `", command, "` does not exist!"), is_error: true }
}

/// A line for the user, and whether it reports an error.
#[derive(Clone, Debug, PartialEq, Eq)]
pub struct Notice {
    pub text: String,
    pub is_error: bool,
}

/// A line for the user as a sequence, with whether it reports an error.
pub open spec fn notice_view(notice: Option<Notice>) -> Option<(Seq<char>, bool)> {
    match notice {
        Some(n) => Some((n.text@, n.is_error)),
        None => None,
    }
}

/// What an answer means to the user.
#[derive(Clone, Debug, PartialEq, Eq)]
pub struct ClientOutcome {
    /// The line to show, if any.
    pub notice: Option<Notice>,
    /// The directory to show, if any.
    pub listing: Option<DirectoryContents>,
    /// Whether the current directory is to be listed anew.
    pub refresh: bool,
}

/// The first message of a client: a greeting that asks for encryption where
/// the client has a key, and a plain greeting where it has none.
pub fn handshake_message(encrypted: bool) -> (out: &'static str)
    ensures
        out@ == if encrypted {
            MESSAGE_INIT_ENC@
        } else {
            MESSAGE_INIT@
        },
{
    if encrypted {
        MESSAGE_INIT_ENC
    } else {
        MESSAGE_INIT
    }
}

/// What the server's answer to the greeting means: the session goes on, the
/// server has no key, or the answer is no answer to a greeting.
pub open spec fn handshake_result(header: Seq<char>) -> Result<(), QuickTransferError> {
    if header == MESSAGE_NOT_ENC@ {
        Err(QuickTransferError::ServerDoesNotSupportEncryption)
    } else if header == MESSAGE_OK@ {
        Ok(())
    } else {
        Err(QuickTransferError::SentInvalidData(ProgramRole::Client))
    }
}

/// Takes the server's answer to the greeting.
pub fn handshake_reply(header: &str) -> (out: Result<(), QuickTransferError>)
    ensures
        out == handshake_result(header@),
{
    if same_text(header, MESSAGE_NOT_ENC) {
        Err(QuickTransferError::ServerDoesNotSupportEncryption)
    } else if same_text(header, MESSAGE_OK) {
        Ok(())
    } else {
        Err(QuickTransferError::SentInvalidData(ProgramRole::Client))
    }
}

/// Takes the first listing, which the server sends unasked: the directory to
/// show, or the line that says that the root could not be read, after which
/// the session ends.
pub fn initial_listing(listing: Option<MessageDirectoryContents>, root_directory: &str) -> (out:
    Result<DirectoryContents, Notice>)
    ensures
        match listing {
            Some(MessageDirectoryContents::Success(contents)) => out == Ok::<
                DirectoryContents,
                Notice,
            >(contents),
            _ => out matches Err(notice) && notice.is_error && notice.text@
                == "Error: An error in reading contents of `"@ + root_directory@ + "` occurred."@,
        },
{
    match listing {
        Some(MessageDirectoryContents::Success(contents)) => Ok(contents),
        _ => Err(
            Notice {
                text: framed(
                    "Error: An error in reading contents of `",
                    root_directory,
                    "` occurred.",
                ),
                is_error: true,
            },
        ),
    }
}

/// Whether a header that arrives while the client is idle ends the session:
/// the server's goodbye does, anything else is passed over.
pub fn server_disconnected(header: &str) -> (out: bool)
    ensures
        out == (header@ == MESSAGE_DISCONNECT@),
{
    same_text(header, MESSAGE_DISCONNECT)
}

/// Whether the client owes the server a goodbye when its session is over:
/// it does where the session ended well and on the client's side.
pub fn goodbye_due(result: &Result<bool, QuickTransferError>) -> (out: bool)
    ensures
        out == (*result == Ok::<bool, QuickTransferError>(true)),
{
    match result {
        Ok(client_disconnected) => *client_disconnected,
        Err(_) => false,
    }
}

/// The line for an answer to `cd`, if it has one.
pub open spec fn cd_notice(answer: CdAnswer, directory_name: Seq<char>) -> Option<
    (Seq<char>, bool),
> {
    match answer {
        CdAnswer::DirectoryDoesNotExist => Some(
            ("Error: Directory `"@ + directory_name + "` does not exist!"@, true),
        ),
        CdAnswer::ReadingDirectoryError => Some(
            ("Error: An error in reading contents of `"@ + directory_name + "` occurred."@, true),
        ),
        CdAnswer::IllegalDirectory => Some(
            ("Error: You don't have access to directory `"@ + directory_name + "`!"@, true),
        ),
        CdAnswer::Success(_) => None,
    }
}

/// What the answer to `cd` means to the user.
pub fn cd_outcome(answer: CdAnswer, directory_name: &str) -> (out: ClientOutcome)
    ensures
        notice_view(out.notice) == cd_notice(answer, directory_name@),
        out.listing == match answer {
            CdAnswer::Success(MessageDirectoryContents::Success(contents)) => Some(contents),
            _ => None,
        },
        !out.refresh,
{
    match answer {
        CdAnswer::DirectoryDoesNotExist => ClientOutcome {
            notice: Some(
                Notice {
                    text: framed("Error: Directory `", directory_name, "` does not exist!"),
                    is_error: true,
                },
            ),
            listing: None,
            refresh: false,
        },
        CdAnswer::ReadingDirectoryError => ClientOutcome {
            notice: Some(
                Notice {
                    text: framed(
                        "Error: An error in reading contents of `",
                        directory_name,
                        "` occurred.",
                    ),
                    is_error: true,
                },
            ),
            listing: None,
            refresh: false,
        },
        CdAnswer::IllegalDirectory => ClientOutcome {
            notice: Some(
                Notice {
                    text: framed(
                        "Error: You don't have access to directory `",
                        directory_name,
                        "`!",
                    ),
                    is_error: true,
                },
            ),
            listing: None,
            refresh: false,
        },
        CdAnswer::Success(MessageDirectoryContents::Success(contents)) => ClientOutcome {
            notice: None,
            listing: Some(contents),
            refresh: false,
        },
        CdAnswer::Success(MessageDirectoryContents::ReadingDirectoryError) => ClientOutcome {
            notice: None,
            listing: None,
            refresh: false,
        },
    }
}

/// What the answer to `ls` means to the user.
pub fn ls_outcome(answer: MessageDirectoryContents) -> (out: ClientOutcome)
    ensures
        match answer {
            MessageDirectoryContents::Success(contents) => out.notice is None && out.listing
                == Some(contents),
            MessageDirectoryContents::ReadingDirectoryError => out.listing is None
                && notice_view(out.notice) == Some(
                ("Error: An error in reading contents of the directory occurred."@, true),
            ),
        },
        !out.refresh,
{
    match answer {
        MessageDirectoryContents::Success(contents) => ClientOutcome {
            notice: None,
            listing: Some(contents),
            refresh: false,
        },
        MessageDirectoryContents::ReadingDirectoryError => ClientOutcome {
            notice: Some(
                Notice {
                    text: String::from_str(
                        "Error: An error in reading contents of the directory occurred.",
                    ),
                    is_error: true,
                },
            ),
            listing: None,
            refresh: false,
        },
    }
}

/// What the listing that follows a change on the server means to the user:
/// the directory is shown where it could be read, and nothing is said where
/// it could not.
pub fn refresh_outcome(answer: MessageDirectoryContents) -> (out: ClientOutcome)
    ensures
        out.notice is None,
        out.listing == match answer {
            MessageDirectoryContents::Success(contents) => Some(contents),
            MessageDirectoryContents::ReadingDirectoryError => None,
        },
        !out.refresh,
{
    match answer {
        MessageDirectoryContents::Success(contents) => ClientOutcome {
            notice: None,
            listing: Some(contents),
            refresh: false,
        },
        MessageDirectoryContents::ReadingDirectoryError => ClientOutcome {
            notice: None,
            listing: None,
            refresh: false,
        },
    }
}

/// The line for a download that the server refused.
pub open spec fn download_fail_text(fail: FileFail, file_name: Seq<char>) -> Seq<char> {
    match fail {
        FileFail::FileDoesNotExist => "Error: File `"@ + file_name + "` does not exist!"@,
        FileFail::IllegalFile => "Error: You don't have access to file `"@ + file_name + "`!"@,
        FileFail::ErrorOpeningFile => "Error: Error opening file `"@ + file_name + "`!"@,
        FileFail::ErrorCreatingFile => "Error: Error creating file `"@ + file_name + "`!"@,
    }
}

/// What a refused download means to the user.
pub fn download_fail_notice(fail: FileFail, file_name: &str) -> (out: Notice)
    ensures
        out.text@ == download_fail_text(fail, file_name@),
        out.is_error,
{
    let text = match fail {
        FileFail::FileDoesNotExist => framed("Error: File `", file_name, "` does not exist!"),
        FileFail::IllegalFile => framed(
            "Error: You don't have access to file `",
            file_name,
            "`!",
        ),
        FileFail::ErrorOpeningFile => framed("Error: Error opening file `", file_name, "`!"),
        FileFail::ErrorCreatingFile => framed("Error: Error creating file `", file_name, "`!"),
    };
    Notice { text, is_error: true }
}

/// What the server says to a request to download.
#[derive(Clone, Debug, PartialEq, Eq)]
pub enum DownloadReply<'a> {
    /// The download is refused; the body names the reason.
    Failed(&'a [u8]),
    /// The file follows, with this many bytes.
    Starts { file_size: u64 },
}

/// A reply to a download, with the body as a sequence.
pub enum DownloadReplyView {
    Failed(Seq<u8>),
    Starts { file_size: u64 },
}

/// The reply that a message holds. A header that announces neither a
/// refusal nor a file is invalid data.
pub open spec fn download_reply_read(role: ProgramRole, message: Seq<u8>) -> Result<
    DownloadReplyView,
    QuickTransferError,
> {
    match header_read(role, message) {
        Err(e) => Err(e),
        Ok((header, body)) => if header == MESSAGE_DOWNLOAD_FAIL@ {
            match answer_read(role, body) {
                Ok(reason) => Ok(DownloadReplyView::Failed(reason)),
                Err(e) => Err(e),
            }
        } else if header == MESSAGE_DOWNLOAD_SUCCESS@ {
            match u64_read(role, body) {
                Ok((file_size, _)) => Ok(DownloadReplyView::Starts { file_size }),
                Err(e) => Err(e),
            }
        } else {
            Err(QuickTransferError::SentInvalidData(ProgramRole::Client))
        },
    }
}

/// The client reads each reply to a download as the server's agent wrote
/// it: a refusal with the reason it was given, and the announcement of a
/// file with the size it was given.
pub proof fn lemma_download_replies_are_understood(
    role: ProgramRole,
    reason: Seq<u8>,
    file_size: u64,
)
    requires
        reason.len() <= u64::MAX,
    ensures
        download_reply_read(role, answer_message(MESSAGE_DOWNLOAD_FAIL@, reason)) == Ok::<
            DownloadReplyView,
            QuickTransferError,
        >(DownloadReplyView::Failed(reason)),
        download_reply_read(role, download_success_message(file_size)) == Ok::<
            DownloadReplyView,
            QuickTransferError,
        >(DownloadReplyView::Starts { file_size }),
{
    reveal_strlit("DOWNFAIL");
    reveal_strlit("DOWNSUCC");
    vstd::utf8::is_ascii_chars_encode_utf8(MESSAGE_DOWNLOAD_FAIL@);
    vstd::utf8::is_ascii_chars_encode_utf8(MESSAGE_DOWNLOAD_SUCCESS@);
    assert(MESSAGE_DOWNLOAD_FAIL@[4] == 'F');
    assert(MESSAGE_DOWNLOAD_SUCCESS@[4] == 'S');
    lemma_answer_read(role, MESSAGE_DOWNLOAD_FAIL@, reason);
    let counted = u64_be_bytes(reason.len() as u64) + reason;
    assert(answer_message(MESSAGE_DOWNLOAD_FAIL@, reason) =~= encode_utf8(MESSAGE_DOWNLOAD_FAIL@)
        + counted);
    lemma_header_read(role, MESSAGE_DOWNLOAD_FAIL@, counted);
    let size = u64_be_bytes(file_size);
    lemma_header_read(role, MESSAGE_DOWNLOAD_SUCCESS@, size);
    assert(size =~= size + Seq::<u8>::empty());
    lemma_u64_read(role, file_size, Seq::<u8>::empty());
}

/// A reply or the failure to read one, with the body as a sequence.
pub open spec fn download_reply_view(read: Result<DownloadReply, QuickTransferError>) -> Result<
    DownloadReplyView,
    QuickTransferError,
> {
    match read {
        Ok(DownloadReply::Failed(reason)) => Ok(DownloadReplyView::Failed(reason@)),
        Ok(DownloadReply::Starts { file_size }) => Ok(DownloadReplyView::Starts { file_size }),
        Err(e) => Err(e),
    }
}

/// Reads the server's reply to a request to download.
pub fn read_download_reply<'a>(agent: &CommunicationAgent, message: &'a [u8]) -> (out: Result<
    DownloadReply<'a>,
    QuickTransferError,
>)
    ensures
        download_reply_view(out) == download_reply_read(agent.role(), message@),
{
    let (header, body) = match agent.read_message_header(message) {
        Ok(parts) => parts,
        Err(e) => {
            return Err(e);
        },
    };
    if same_text(header.as_str(), MESSAGE_DOWNLOAD_FAIL) {
        match agent.read_answer(body) {
            Ok(reason) => Ok(DownloadReply::Failed(reason)),
            Err(e) => Err(e),
        }
    } else if same_text(header.as_str(), MESSAGE_DOWNLOAD_SUCCESS) {
        match agent.read_u64(body) {
            Ok((file_size, _)) => Ok(DownloadReply::Starts { file_size }),
            Err(e) => Err(e),
        }
    } else {
        Err(QuickTransferError::SentInvalidData(ProgramRole::Client))
    }
}

/// What the end of a download means to the user and to the session: a file
/// that could not be written is reported and the session goes on, any other
/// failure ends the session, and a download that went through is reported.
pub fn download_outcome(received: Result<(), QuickTransferError>, file_name: &str) -> (out:
    Result<Notice, QuickTransferError>)
    ensures
        match received {
            Ok(()) => out matches Ok(notice) && !notice.is_error && notice.text@
                == "Successfully downloaded file `"@ + file_name@ + "`!"@,
            Err(QuickTransferError::WritingFile { file_path }) => out matches Ok(notice)
                && notice.is_error && notice.text@ == "Error: Error saving file `"@ + file_path@
                + "`."@,
            Err(e) => out == Err::<Notice, QuickTransferError>(e),
        },
{
    match received {
        Ok(()) => Ok(
            Notice {
                text: framed("Successfully downloaded file `", file_name, "`!"),
                is_error: false,
            },
        ),
        Err(QuickTransferError::WritingFile { file_path }) => Ok(
            Notice {
                text: framed("Error: Error saving file `", file_path.as_str(), "`."),
                is_error: true,
            },
        ),
        Err(e) => Err(e),
    }
}

/// What the client finds when it looks at the file it is to upload.
#[derive(Copy, Clone, Debug, PartialEq, Eq, Structural)]
pub enum LocalFile {
    /// No file is there.
    Missing,
    /// The file cannot be opened.
    Unopenable,
    /// The file's size cannot be read.
    SizeUnknown,
    /// The file is open and has this many bytes.
    Ready { file_size: u64 },
}

/// The line for a local file that is looked at for an upload.
pub open spec fn upload_start_text(file: LocalFile, file_name: Seq<char>) -> Seq<char> {
    match file {
        LocalFile::Missing => "Error: File `"@ + file_name + "` does not exist!"@,
        LocalFile::Unopenable => "Error opening file `"@ + file_name + "`."@,
        LocalFile::SizeUnknown => "Error reading size of file `"@ + file_name + "`."@,
        LocalFile::Ready { .. } => "Uploading file `"@ + file_name + "`..."@,
    }
}

/// Decides whether an upload starts: it does where the file is open and its
/// size is known, and the user is told either way.
pub fn upload_start(file: LocalFile, file_name: &str) -> (out: (Option<u64>, Notice))
    ensures
        out.0 == match file {
            LocalFile::Ready { file_size } => Some(file_size),
            _ => None,
        },
        out.1.text@ == upload_start_text(file, file_name@),
        out.1.is_error == !(file is Ready),
{
    match file {
        LocalFile::Missing => (
            None,
            Notice {
                text: framed("Error: File `", file_name, "` does not exist!"),
                is_error: true,
            },
        ),
        LocalFile::Unopenable => (
            None,
            Notice { text: framed("Error opening file `", file_name, "`."), is_error: true },
        ),
        LocalFile::SizeUnknown => (
            None,
            Notice {
                text: framed("Error reading size of file `", file_name, "`."),
                is_error: true,
            },
        ),
        LocalFile::Ready { file_size } => (
            Some(file_size),
            Notice { text: framed("Uploading file `", file_name, "`..."), is_error: false },
        ),
    }
}

/// The line for the answer to an upload.
pub open spec fn upload_text(result: UploadResult, file_name: Seq<char>) -> Seq<char> {
    match result {
        UploadResult::Fail(FileFail::ErrorCreatingFile) => "Uploading file `"@ + file_name
            + "` failed. An error creating the file on server occurred."@,
        UploadResult::Fail(_) => "Uploading file `"@ + file_name + "` failed."@,
        UploadResult::Success => "Successfully uploaded file `"@ + file_name + "`!"@,
    }
}

/// What the answer to an upload means to the user.
pub fn upload_outcome(result: UploadResult, file_name: &str) -> (out: Notice)
    ensures
        out.text@ == upload_text(result, file_name@),
        !out.is_error,
{
    let text = match result {
        UploadResult::Fail(FileFail::ErrorCreatingFile) => framed(
            "Uploading file `",
            file_name,
            "` failed. An error creating the file on server occurred.",
        ),
        UploadResult::Fail(_) => framed("Uploading file `", file_name, "` failed."),
        UploadResult::Success => framed("Successfully uploaded file `", file_name, "`!"),
    };
    Notice { text, is_error: false }
}

/// The line for the answer to `mkdir`.
pub open spec fn mkdir_text(answer: MkdirAnswer, directory_name: Seq<char>) -> Seq<char> {
    match answer {
        MkdirAnswer::DirectoryAlreadyExists => "Error: Directory `"@ + directory_name
            + "` already exists!"@,
        MkdirAnswer::IllegalDirectory => "Error: You don't have access to directory `"@
            + directory_name + "`!"@,
        MkdirAnswer::ErrorCreatingDirectory => "Error: An error creating directory `"@
            + directory_name + "` has occurred."@,
        MkdirAnswer::Success => "Successfully created directory `"@ + directory_name + "`."@,
    }
}

/// What the answer to `mkdir` means to the user. After a success the
/// current directory is listed anew.
pub fn mkdir_outcome(answer: MkdirAnswer, directory_name: &str) -> (out: ClientOutcome)
    ensures
        notice_view(out.notice) == Some(
            (mkdir_text(answer, directory_name@), !(answer is Success)),
        ),
        out.listing is None,
        out.refresh == answer is Success,
{
    let text = match answer {
        MkdirAnswer::DirectoryAlreadyExists => framed(
            "Error: Directory `",
            directory_name,
            "` already exists!",
        ),
        MkdirAnswer::IllegalDirectory => framed(
            "Error: You don't have access to directory `",
            directory_name,
            "`!",
        ),
        MkdirAnswer::ErrorCreatingDirectory => framed(
            "Error: An error creating directory `",
            directory_name,
            "` has occurred.",
        ),
        MkdirAnswer::Success => framed("Successfully created directory `", directory_name, "`."),
    };
    let done = matches!(answer, MkdirAnswer::Success);
    ClientOutcome { notice: Some(Notice { text, is_error: !done }), listing: None, refresh: done }
}

/// The line for the answer to `mv`.
pub open spec fn rename_text(answer: RenameAnswer, file_dir_name: Seq<char>) -> Seq<char> {
    match answer {
        RenameAnswer::FileDirDoesNotExist => "Error: File/directory `"@ + file_dir_name
            + "` does not exist!"@,
        RenameAnswer::IllegalFileDir => "Error: You don't have access to file/directory `"@
            + file_dir_name + "`!"@,
        RenameAnswer::ErrorRenaming => "Error: An error renaming file/directory `"@
            + file_dir_name + "` has occurred."@,
        RenameAnswer::Success { old_name, new_name } => "Successfully renamed `"@ + old_name@
            + "` to `"@ + new_name@ + "`."@,
    }
}

/// What the answer to `mv` means to the user. After a success the current
/// directory is listed anew.
pub fn rename_outcome(answer: RenameAnswer, file_dir_name: &str) -> (out: ClientOutcome)
    ensures
        notice_view(out.notice) == Some(
            (rename_text(answer, file_dir_name@), !(answer is Success)),
        ),
        out.listing is None,
        out.refresh == answer is Success,
{
    match answer {
        RenameAnswer::FileDirDoesNotExist => ClientOutcome {
            notice: Some(
                Notice {
                    text: framed("Error: File/directory `", file_dir_name, "` does not exist!"),
                    is_error: true,
                },
            ),
            listing: None,
            refresh: false,
        },
        RenameAnswer::IllegalFileDir => ClientOutcome {
            notice: Some(
                Notice {
                    text: framed(
                        "Error: You don't have access to file/directory `",
                        file_dir_name,
                        "`!",
                    ),
                    is_error: true,
                },
            ),
            listing: None,
            refresh: false,
        },
        RenameAnswer::ErrorRenaming => ClientOutcome {
            notice: Some(
                Notice {
                    text: framed(
                        "Error: An error renaming file/directory `",
                        file_dir_name,
                        "` has occurred.",
                    ),
                    is_error: true,
                },
            ),
            listing: None,
            refresh: false,
        },
        RenameAnswer::Success { old_name, new_name } => {
            let mut text = framed("Successfully renamed `", old_name.as_str(), "` to `");
            text.append(new_name.as_str());
            text.append("`.");
            ClientOutcome {
                notice: Some(Notice { text, is_error: false }),
                listing: None,
                refresh: true,
            }
        },
    }
}

/// The line for the answer to `rm`.
pub open spec fn remove_text(answer: RemoveAnswer, file_dir_name: Seq<char>) -> Seq<char> {
    match answer {
        RemoveAnswer::FileDirDoesNotExist => "Error: File/directory `"@ + file_dir_name
            + "` does not exist!"@,
        RemoveAnswer::IllegalFileDir => "Error: You don't have access to file/directory `"@
            + file_dir_name + "`!"@,
        RemoveAnswer::ErrorRemoving => "Error: An error removing file/directory `"@
            + file_dir_name + "` has occurred."@,
        RemoveAnswer::DirectoryNotEmpty => "Error: Directory `"@ + file_dir_name
            + "` is not empty! For safety reasons, deleting non-empty directories is not allowed."@,
        RemoveAnswer::Success => "Successfully removed `"@ + file_dir_name + "`."@,
    }
}

/// What the answer to `rm` means to the user. After a success the current
/// directory is listed anew.
pub fn remove_outcome(answer: RemoveAnswer, file_dir_name: &str) -> (out: ClientOutcome)
    ensures
        notice_view(out.notice) == Some(
            (remove_text(answer, file_dir_name@), !(answer is Success)),
        ),
        out.listing is None,
        out.refresh == answer is Success,
{
    let text = match answer {
        RemoveAnswer::FileDirDoesNotExist => framed(
            "Error: File/directory `",
            file_dir_name,
            "` does not exist!",
        ),
        RemoveAnswer::IllegalFileDir => framed(
            "Error: You don't have access to file/directory `",
            file_dir_name,
            "`!",
        ),
        RemoveAnswer::ErrorRemoving => framed(
            "Error: An error removing file/directory `",
            file_dir_name,
            "` has occurred.",
        ),
        RemoveAnswer::DirectoryNotEmpty => framed(
            "Error: Directory `",
            file_dir_name,
            "` is not empty! For safety reasons, deleting non-empty directories is not allowed.",
        ),
        RemoveAnswer::Success => framed("Successfully removed `", file_dir_name, "`."),
    };
    let done = matches!(answer, RemoveAnswer::Success);
    ClientOutcome { notice: Some(Notice { text, is_error: !done }), listing: None, refresh: done }
}

/// A text with the client's help behind it.
pub open spec fn with_client_help(before: Seq<char>) -> Seq<char> {
    before
        + "Available commands:\n"@
        + "  cd <directory_name>            Change directory to `directory_name`\n"@
        + "                                 (can be a path, including `..`; note:\n"@
        + "                                 you cannot go higher that the root\n"@
        + "                                 directory in which the server is being run).\n"@
        + "  ls                             Display current directory contents.\n"@
        + "  download <file_path>           Download the file from `file_path`\n"@
        + "                                 (relative to current view) to current\n"@
        + "                                 directory (i.e. on which QuickTransfer\n"@
        + "                                 has been run). If the file exists, it\n"@
        + "                                 will be overwritten.\n"@
        + "  upload <file_path>             Upload the file from `file_path` (relative\n"@
        + "                                 to current directory, i.e. on which\n"@
        + "                                 QuickTransfer has been run) to directory\n"@
        + "                                 in current view (overrides files). If\n"@
        + "                                 the file exists, it will be overwritten.\n"@
        + "  mkdir <directory_name>         Create a new directory in current location.\n"@
        + "  mv <file_dir_path> <new_name>  Rename a file/directory.\n"@
        + "  rm <file_dir_path>             Remove a file/empty directory.\n"@
        + "  clear                          Clear the screen.\n"@
        + "  exit; disconnect; quit         Gracefully disconnect and exit QuickTransfer.\n"@
}

/// Puts the client's help behind `help_msg`.
pub fn preprint_user_help(help_msg: &mut String)
    ensures
        final(help_msg)@ == with_client_help(old(help_msg)@),
{
    help_msg.append("Available commands:\n");
    help_msg.append("  cd <directory_name>            Change directory to `directory_name`\n");
    help_msg.append("                                 (can be a path, including `..`; note:\n");
    help_msg.append("                                 you cannot go higher that the root\n");
    help_msg.append("                                 directory in which the server is being run).\n");
    help_msg.append("  ls                             Display current directory contents.\n");
    help_msg.append("  download <file_path>           Download the file from `file_path`\n");
    help_msg.append("                                 (relative to current view) to current\n");
    help_msg.append("                                 directory (i.e. on which QuickTransfer\n");
    help_msg.append("                                 has been run). If the file exists, it\n");
    help_msg.append("                                 will be overwritten.\n");
    help_msg.append("  upload <file_path>             Upload the file from `file_path` (relative\n");
    help_msg.append("                                 to current directory, i.e. on which\n");
    help_msg.append("                                 QuickTransfer has been run) to directory\n");
    help_msg.append("                                 in current view (overrides files). If\n");
    help_msg.append("                                 the file exists, it will be overwritten.\n");
    help_msg.append("  mkdir <directory_name>         Create a new directory in current location.\n");
    help_msg.append("  mv <file_dir_path> <new_name>  Rename a file/directory.\n");
    help_msg.append("  rm <file_dir_path>             Remove a file/empty directory.\n");
    help_msg.append("  clear                          Clear the screen.\n");
    help_msg.append("  exit; disconnect; quit         Gracefully disconnect and exit QuickTransfer.\n");
}

} // verus!
