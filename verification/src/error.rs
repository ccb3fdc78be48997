//! Roles and the failures a session can end with.

use vstd::prelude::*;
use vstd::string::StringExecFns;

verus! {

/// Which end of the connection this program is.
#[derive(Copy, Clone, Debug, PartialEq, Eq, Structural)]
pub enum ProgramRole {
    Server,
    Client,
}

impl ProgramRole {
    /// The role in lower case, as it is shown to the user.
    pub open spec fn text(self) -> Seq<char> {
        match self {
            ProgramRole::Server => "server"@,
            ProgramRole::Client => "client"@,
        }
    }

    /// The role in lower case.
    pub fn name(&self) -> (out: &'static str)
        ensures
            out@ == self.text(),
    {
        match self {
            ProgramRole::Server => "server",
            ProgramRole::Client => "client",
        }
    }
}

/// The kinds of operating-system failure that change what the protocol does.
#[derive(Copy, Clone, Debug, PartialEq, Eq, Structural)]
pub enum IoErrorKind {
    /// The peer closed the stream before the expected bytes arrived.
    UnexpectedEof,
    /// Nobody listens at the address.
    ConnectionRefused,
    /// A directory that was to be removed still has entries.
    DirectoryNotEmpty,
    /// Any other failure.
    Other,
}

/// Every way a session or the whole program can fail.
#[derive(Clone, Debug, PartialEq, Eq)]
pub enum QuickTransferError {
    ServerCreation,
    ConnectionRefused { server_ip: String, port: u16 },
    ConnectionCreation,
    MessageReceive(ProgramRole),
    MessageReceiveTimeout(ProgramRole),
    RemoteClosedConnection(ProgramRole),
    SentInvalidData(ProgramRole),
    ErrorWhileSendingMessage(ProgramRole),
    ReadingDirectoryContents,
    Fatal,
    Stdout,
    ReadLine { error: String },
    OpeningFile { file_path: String },
    ReadingFile { file_path: String },
    WritingFile { file_path: String },
    ServerDoesNotSupportEncryption,
    Deciphering,
    Ciphering,
    Other,
}

/// How the other end of the connection is called, seen from `role`.
pub open spec fn opposite_role_text(role: ProgramRole, capitalize: bool) -> Seq<char> {
    match role {
        ProgramRole::Server => if capitalize {
            "Client"@
        } else {
            "client"@
        },
        ProgramRole::Client => if capitalize {
            "Server"@
        } else {
            "server"@
        },
    }
}

/// The name of the other end of the connection, for messages to the user.
pub fn read_opposite_role(role: &ProgramRole, capitalize: bool) -> (out: &'static str)
    ensures
        out@ == opposite_role_text(*role, capitalize),
{
    match role {
        ProgramRole::Server => if capitalize {
            "Client"
        } else {
            "client"
        },
        ProgramRole::Client => if capitalize {
            "Server"
        } else {
            "server"
        },
    }
}

/// The failure that a broken read or write on the socket stands for.
pub open spec fn tcp_error(error: IoErrorKind, role: ProgramRole) -> QuickTransferError {
    if error == IoErrorKind::UnexpectedEof {
        QuickTransferError::RemoteClosedConnection(role)
    } else {
        QuickTransferError::MessageReceive(role)
    }
}

/// Maps a failed read or write on the socket: an early end of the stream means
/// that the peer closed the connection, anything else is a failed receive.
pub fn map_tcp_error(error: IoErrorKind, role: ProgramRole) -> (out: QuickTransferError)
    ensures
        out == tcp_error(error, role),
{
    match error {
        IoErrorKind::UnexpectedEof => QuickTransferError::RemoteClosedConnection(role),
        _ => QuickTransferError::MessageReceive(role),
    }
}

/// The failure that an unsuccessful connection attempt stands for.
pub fn map_connect_error(error: IoErrorKind, server_ip: String, port: u16) -> (out:
    QuickTransferError)
    ensures
        error == IoErrorKind::ConnectionRefused ==> out == (QuickTransferError::ConnectionRefused {
            server_ip,
            port,
        }),
        error != IoErrorKind::ConnectionRefused ==> out == QuickTransferError::ConnectionCreation,
{
    match error {
        IoErrorKind::ConnectionRefused => QuickTransferError::ConnectionRefused { server_ip, port },
        _ => QuickTransferError::ConnectionCreation,
    }
}

impl QuickTransferError {
    /// The line shown to the user for this failure.
    pub open spec fn text(self) -> Seq<char> {
        match self {
            QuickTransferError::ServerCreation =>
                "An error occurred while creating a server. Please try again."@,
            QuickTransferError::ConnectionRefused { server_ip, port } => "Server \""@ + server_ip@
                + "\" refused the connection. Make sure this is a correct address and the server is running QuickTransfer on port "@
                + decimal_text(port as nat) + "."@,
            QuickTransferError::ConnectionCreation =>
                "An error occurred while connecting. Please try again."@,
            QuickTransferError::MessageReceive(role) =>
                "An error occurred while receiving a message from "@ + opposite_role_text(
                    role,
                    false,
                ) + "."@,
            QuickTransferError::MessageReceiveTimeout(role) =>
                "Timeout for receiving the message from "@ + opposite_role_text(role, false)
                    + " has passed."@,
            QuickTransferError::RemoteClosedConnection(role) => opposite_role_text(role, true)
                + " closed the connection. Turn on QuickTransfer on "@ + opposite_role_text(
                role,
                false,
            ) + " computer again."@,
            QuickTransferError::SentInvalidData(role) => opposite_role_text(role, true)
                + " has sent invalid data. Please try again."@,
            QuickTransferError::ErrorWhileSendingMessage(role) =>
                "An error occurred while sending message to the "@ + opposite_role_text(
                    role,
                    false,
                ) + "."@,
            QuickTransferError::ReadingDirectoryContents =>
                "An error occurred while reading current directory contents. Make sure the program has permissions to do so. It is needed for QuickTransfer to work."@,
            QuickTransferError::Fatal => "A fatal error has occurred."@,
            QuickTransferError::Stdout => "A problem with writing to stdout has occurred."@,
            QuickTransferError::ReadLine { error } => "A problem with reading user's input: "@
                + error@,
            QuickTransferError::OpeningFile { file_path } => "A problem with opening file `"@
                + file_path@ + "` has occurred."@,
            QuickTransferError::ReadingFile { file_path } => "A problem with reading file `"@
                + file_path@ + "` has occurred."@,
            QuickTransferError::WritingFile { file_path } => "A problem with writing file `"@
                + file_path@ + "` has occurred."@,
            QuickTransferError::ServerDoesNotSupportEncryption =>
                "Server doesn't support encryption."@,
            QuickTransferError::Deciphering =>
                "An error occurred while deciphering. Make sure that client and server use the same AES256 key."@,
            QuickTransferError::Ciphering => "An error occurred while ciphering."@,
            QuickTransferError::Other => ""@,
        }
    }

    /// Renders the failure as the line shown to the user.
    pub fn message(&self) -> (out: String)
        ensures
            out@ == self.text(),
    {
        match self {
            QuickTransferError::ServerCreation => String::from_str(
                "An error occurred while creating a server. Please try again.",
            ),
            QuickTransferError::ConnectionRefused { server_ip, port } => {
                let mut out = String::from_str("Server \"");
                out.append(server_ip.as_str());
                out.append(
                    "\" refused the connection. Make sure this is a correct address and the server is running QuickTransfer on port ",
                );
                let digits = decimal(*port as u64);
                out.append(digits.as_str());
                out.append(".");
                out
            },
            QuickTransferError::ConnectionCreation => String::from_str(
                "An error occurred while connecting. Please try again.",
            ),
            QuickTransferError::MessageReceive(role) => {
                let mut out = String::from_str("An error occurred while receiving a message from ");
                out.append(read_opposite_role(role, false));
                out.append(".");
                out
            },
            QuickTransferError::MessageReceiveTimeout(role) => {
                let mut out = String::from_str("Timeout for receiving the message from ");
                out.append(read_opposite_role(role, false));
                out.append(" has passed.");
                out
            },
            QuickTransferError::RemoteClosedConnection(role) => {
                let mut out = String::from_str(read_opposite_role(role, true));
                out.append(" closed the connection. Turn on QuickTransfer on ");
                out.append(read_opposite_role(role, false));
                out.append(" computer again.");
                out
            },
            QuickTransferError::SentInvalidData(role) => {
                let mut out = String::from_str(read_opposite_role(role, true));
                out.append(" has sent invalid data. Please try again.");
                out
            },
            QuickTransferError::ErrorWhileSendingMessage(role) => {
                let mut out = String::from_str("An error occurred while sending message to the ");
                out.append(read_opposite_role(role, false));
                out.append(".");
                out
            },
            QuickTransferError::ReadingDirectoryContents => String::from_str(
                "An error occurred while reading current directory contents. Make sure the program has permissions to do so. It is needed for QuickTransfer to work.",
            ),
            QuickTransferError::Fatal => String::from_str("A fatal error has occurred."),
            QuickTransferError::Stdout => String::from_str(
                "A problem with writing to stdout has occurred.",
            ),
            QuickTransferError::ReadLine { error } => {
                let mut out = String::from_str("A problem with reading user's input: ");
                out.append(error.as_str());
                out
            },
            QuickTransferError::OpeningFile { file_path } => {
                let mut out = String::from_str("A problem with opening file `");
                out.append(file_path.as_str());
                out.append("` has occurred.");
                out
            },
            QuickTransferError::ReadingFile { file_path } => {
                let mut out = String::from_str("A problem with reading file `");
                out.append(file_path.as_str());
                out.append("` has occurred.");
                out
            },
            QuickTransferError::WritingFile { file_path } => {
                let mut out = String::from_str("A problem with writing file `");
                out.append(file_path.as_str());
                out.append("` has occurred.");
                out
            },
            QuickTransferError::ServerDoesNotSupportEncryption => String::from_str(
                "Server doesn't support encryption.",
            ),
            QuickTransferError::Deciphering => String::from_str(
                "An error occurred while deciphering. Make sure that client and server use the same AES256 key.",
            ),
            QuickTransferError::Ciphering => String::from_str("An error occurred while ciphering."),
            QuickTransferError::Other => String::from_str(""),
        }
    }
}

/// The decimal digit for a number below ten.
pub open spec fn digit_char(d: nat) -> char {
    if d == 0 {
        '0'
    } else if d == 1 {
        '1'
    } else if d == 2 {
        '2'
    } else if d == 3 {
        '3'
    } else if d == 4 {
        '4'
    } else if d == 5 {
        '5'
    } else if d == 6 {
        '6'
    } else if d == 7 {
        '7'
    } else if d == 8 {
        '8'
    } else {
        '9'
    }
}

/// `n` written in decimal, without leading zeros.
pub open spec fn decimal_text(n: nat) -> Seq<char>
    decreases n,
{
    if n < 10 {
        seq![digit_char(n)]
    } else {
        decimal_text(n / 10).push(digit_char(n % 10))
    }
}

fn digit_text(d: u64) -> (out: &'static str)
    requires
        d < 10,
    ensures
        out@ == seq![digit_char(d as nat)],
{
    proof {
        reveal_strlit("0");
        reveal_strlit("1");
        reveal_strlit("2");
        reveal_strlit("3");
        reveal_strlit("4");
        reveal_strlit("5");
        reveal_strlit("6");
        reveal_strlit("7");
        reveal_strlit("8");
        reveal_strlit("9");
    }
    let out = if d == 0 {
        "0"
    } else if d == 1 {
        "1"
    } else if d == 2 {
        "2"
    } else if d == 3 {
        "3"
    } else if d == 4 {
        "4"
    } else if d == 5 {
        "5"
    } else if d == 6 {
        "6"
    } else if d == 7 {
        "7"
    } else if d == 8 {
        "8"
    } else {
        "9"
    };
    assert(out@ =~= seq![digit_char(d as nat)]);
    out
}

/// Writes `n` in decimal.
pub fn decimal(n: u64) -> (out: String)
    ensures
        out@ == decimal_text(n as nat),
    decreases n,
{
    if n < 10 {
        String::from_str(digit_text(n))
    } else {
        let mut out = decimal(n / 10);
        out.append(digit_text(n % 10));
        assert(out@ =~= decimal_text(n as nat));
        out
    }
}

} // verus!
