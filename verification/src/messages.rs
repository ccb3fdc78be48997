//! Header tags and the bodies that travel behind them.

use vstd::prelude::*;

verus! {

/// Width of a header tag, in bytes.
pub const HEADER_NAME_LENGTH: usize = 8;

/// Width of a length field, in bytes.
pub const MESSAGE_LENGTH_LENGTH: usize = 8;

/// Largest number of file bytes sent in one frame.
pub const MAX_FILE_FRAGMENT_SIZE: usize = 1024;

/// The client's greeting, sent in the clear.
pub const MESSAGE_INIT: &'static str = "INIT____";

/// The client's greeting that asks for an encrypted session.
pub const MESSAGE_INIT_ENC: &'static str = "INIT_ENC";

/// The server's answer to a greeting it accepts.
pub const MESSAGE_OK: &'static str = "OK______";

/// The server's answer to a request for encryption that it cannot meet.
pub const MESSAGE_NOT_ENC: &'static str = "NOT_ENC_";

/// A listing of a directory.
pub const MESSAGE_DIR: &'static str = "DIR_____";

/// The request to change the directory.
pub const MESSAGE_CD: &'static str = "CD______";

/// The answer to a request to change the directory.
pub const MESSAGE_CDANSWER: &'static str = "CDANSWER";

/// The request to list the current directory.
pub const MESSAGE_LS: &'static str = "LS______";

/// The request to download a file.
pub const MESSAGE_DOWNLOAD: &'static str = "DOWNLOAD";

/// The refusal of a download.
pub const MESSAGE_DOWNLOAD_FAIL: &'static str = "DOWNFAIL";

/// The announcement of a file that follows, with its size.
pub const MESSAGE_DOWNLOAD_SUCCESS: &'static str = "DOWNSUCC";

/// The announcement of an upload, with the file's name and size.
pub const MESSAGE_UPLOAD: &'static str = "UPLOAD__";

/// The answer to an upload.
pub const MESSAGE_UPLOAD_RESULT: &'static str = "UPLOADRE";

/// The request to make a directory.
pub const MESSAGE_MKDIR: &'static str = "MKDIR___";

/// The answer to a request to make a directory.
pub const MESSAGE_MKDIRANS: &'static str = "MKDIRANS";

/// The request to rename an entry.
pub const MESSAGE_RENAME: &'static str = "RENAME__";

/// The answer to a request to rename.
pub const MESSAGE_RENAME_ANSWER: &'static str = "RENAMEAN";

/// The request to remove an entry.
pub const MESSAGE_REMOVE: &'static str = "REMOVE__";

/// The answer to a request to remove.
pub const MESSAGE_REMOVE_ANSWER: &'static str = "REMOVEAN";

/// The goodbye of either side.
pub const MESSAGE_DISCONNECT: &'static str = "DISCONN_";

/// One entry of a directory.
#[derive(Clone, Debug, PartialEq, Eq)]
pub struct DirectoryPosition {
    pub name: String,
    pub is_directory: bool,
}

/// A directory as it is shown to the client: where it lies below the root, and
/// its entries in the order in which the directory was walked.
#[derive(Clone, Debug, PartialEq, Eq)]
pub struct DirectoryContents {
    pub location: String,
    pub positions: Vec<DirectoryPosition>,
}

/// The body of a listing message.
#[derive(Clone, Debug, PartialEq, Eq)]
pub enum MessageDirectoryContents {
    ReadingDirectoryError,
    Success(DirectoryContents),
}

impl MessageDirectoryContents {
    /// A listing that was read successfully.
    pub fn new(location: String, positions: Vec<DirectoryPosition>) -> (out:
        MessageDirectoryContents)
        ensures
            out == MessageDirectoryContents::Success(DirectoryContents { location, positions }),
    {
        MessageDirectoryContents::Success(DirectoryContents { location, positions })
    }

    /// Where the listed directory lies, if the listing was read.
    pub fn location(&self) -> (out: Option<&String>)
        ensures
            *self matches MessageDirectoryContents::Success(contents) ==> out == Some(
                &contents.location,
            ),
            *self is ReadingDirectoryError ==> out is None,
    {
        match self {
            MessageDirectoryContents::Success(contents) => Some(&contents.location),
            MessageDirectoryContents::ReadingDirectoryError => None,
        }
    }

    /// The entries of the listed directory, if the listing was read.
    pub fn positions(&self) -> (out: Option<&Vec<DirectoryPosition>>)
        ensures
            *self matches MessageDirectoryContents::Success(contents) ==> out == Some(
                &contents.positions,
            ),
            *self is ReadingDirectoryError ==> out is None,
    {
        match self {
            MessageDirectoryContents::Success(contents) => Some(&contents.positions),
            MessageDirectoryContents::ReadingDirectoryError => None,
        }
    }
}

/// Answer to a request to change the directory.
#[derive(Clone, Debug, PartialEq, Eq)]
pub enum CdAnswer {
    DirectoryDoesNotExist,
    IllegalDirectory,
    ReadingDirectoryError,
    Success(MessageDirectoryContents),
}

/// Why a file could not be sent or stored.
#[derive(Copy, Clone, Debug, PartialEq, Eq, Structural)]
pub enum FileFail {
    FileDoesNotExist,
    IllegalFile,
    ErrorOpeningFile,
    ErrorCreatingFile,
}

/// Answer to an upload.
#[derive(Copy, Clone, Debug, PartialEq, Eq, Structural)]
pub enum UploadResult {
    Fail(FileFail),
    Success,
}

/// Answer to a request to create a directory.
#[derive(Copy, Clone, Debug, PartialEq, Eq, Structural)]
pub enum MkdirAnswer {
    DirectoryAlreadyExists,
    ErrorCreatingDirectory,
    IllegalDirectory,
    Success,
}

/// Answer to a request to rename; success names the entry before and after.
#[derive(Clone, Debug, PartialEq, Eq)]
pub enum RenameAnswer {
    FileDirDoesNotExist,
    IllegalFileDir,
    ErrorRenaming,
    Success { old_name: String, new_name: String },
}

/// Answer to a request to remove a file or an empty directory.
#[derive(Copy, Clone, Debug, PartialEq, Eq, Structural)]
pub enum RemoveAnswer {
    FileDirDoesNotExist,
    IllegalFileDir,
    ErrorRemoving,
    DirectoryNotEmpty,
    Success,
}

} // verus!
