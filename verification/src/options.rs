//! The configuration of a run, and how it is completed from what the user
//! gave.

use crate::error::ProgramRole;
use vstd::prelude::*;
use vstd::string::StringExecFns;

verus! {

/// Port used when none is given.
pub const DEFAULT_PORT: u16 = 47842;

/// Seconds a read may take when no timeout is given.
pub const DEFAULT_TIMEOUT: u16 = 5;

/// Length of the key that enables encryption, in bytes.
pub const KEY_LENGTH: usize = 32;

/// What the caller's configuration holds once it is complete.
#[derive(Clone, Debug, PartialEq, Eq)]
pub struct ProgramOptions {
    pub program_role: ProgramRole,
    pub server_ip_address: String,
    pub port: u16,
    pub root_directory: String,
    pub timeout: u16,
    pub aes_key: Option<[u8; 32]>,
}

/// Why a configuration cannot be completed.
#[derive(Copy, Clone, Debug, PartialEq, Eq, Structural)]
pub enum OptionsFault {
    /// A client was given no address to connect to.
    MissingAddress,
    /// The root directory that was named does not exist.
    InvalidRoot,
}

impl OptionsFault {
    /// The line shown to the user for this fault.
    pub open spec fn text(self) -> Seq<char> {
        match self {
            OptionsFault::MissingAddress => "The server's address must be given in client mode."@,
            OptionsFault::InvalidRoot => "The root directory should be a valid directory."@,
        }
    }

    /// The line shown to the user for this fault.
    pub fn message(&self) -> (out: &'static str)
        ensures
            out@ == self.text(),
    {
        match self {
            OptionsFault::MissingAddress => "The server's address must be given in client mode.",
            OptionsFault::InvalidRoot => "The root directory should be a valid directory.",
        }
    }
}

/// Completes a configuration. A client needs an address; a server without
/// one listens on all interfaces. A root directory that is named must exist;
/// without one the current directory is served.
pub fn complete_options(
    role_server: bool,
    server_ip_address: String,
    port: u16,
    root_directory: String,
    root_exists: bool,
    timeout: u16,
    aes_key: Option<[u8; 32]>,
) -> (out: Result<ProgramOptions, OptionsFault>)
    ensures
        match out {
            Err(fault) => fault == if !role_server && server_ip_address@.len() == 0 {
                OptionsFault::MissingAddress
            } else {
                OptionsFault::InvalidRoot
            },
            Ok(options) => {
                &&& options.program_role == if role_server {
                    ProgramRole::Server
                } else {
                    ProgramRole::Client
                }
                &&& options.server_ip_address@ == if server_ip_address@.len() == 0 {
                    "::"@
                } else {
                    server_ip_address@
                }
                &&& options.root_directory@ == if root_directory@.len() == 0 {
                    "./"@
                } else {
                    root_directory@
                }
                &&& options.port == port
                &&& options.timeout == timeout
                &&& options.aes_key == aes_key
            },
        },
        out is Err <==> (!role_server && server_ip_address@.len() == 0) || (root_directory@.len()
            > 0 && !root_exists),
{
    let no_address = server_ip_address.as_str().is_empty();
    let no_root = root_directory.as_str().is_empty();
    if !role_server && no_address {
        return Err(OptionsFault::MissingAddress);
    }
    if !no_root && !root_exists {
        return Err(OptionsFault::InvalidRoot);
    }
    Ok(
        ProgramOptions {
            program_role: if role_server {
                ProgramRole::Server
            } else {
                ProgramRole::Client
            },
            server_ip_address: if no_address {
                String::from_str("::")
            } else {
                server_ip_address
            },
            port,
            root_directory: if no_root {
                String::from_str("./")
            } else {
                root_directory
            },
            timeout,
            aes_key,
        },
    )
}

/// The key at the start of what a key file holds: its first 32 bytes, or
/// nothing where the file holds fewer.
pub fn read_key(contents: &[u8]) -> (out: Option<[u8; 32]>)
    ensures
        match out {
            Some(key) => contents@.len() >= KEY_LENGTH && key@ == contents@.subrange(
                0,
                KEY_LENGTH as int,
            ),
            None => contents@.len() < KEY_LENGTH,
        },
{
    if contents.len() < KEY_LENGTH {
        return None;
    }
    let mut key = [0u8; 32];
    let mut i: usize = 0;
    while i < KEY_LENGTH
        invariant
            i <= KEY_LENGTH,
            contents@.len() >= KEY_LENGTH,
            forall|j: int| 0 <= j < i ==> key@[j] == contents@[j],
        decreases KEY_LENGTH - i,
    {
        key[i] = contents[i];
        i += 1;
    }
    assert(key@ =~= contents@.subrange(0, KEY_LENGTH as int));
    Some(key)
}

} // verus!
