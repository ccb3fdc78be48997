//! Wire protocol and session engine of a direct-connection file-transfer tool.
//!
//! The crate holds the parts of the tool that decide: how bytes are framed,
//! sealed and parsed, how a server session answers a request while staying
//! inside its root directory, how a file travels in chunks, and when the
//! listener stops. Sockets, files and the console belong to the caller, which
//! hands their results in as plain values.

pub mod agent;
pub mod cipher;
pub mod client;
pub mod console;
pub mod cursor;
pub mod dispatcher;
pub mod encoding;
pub mod error;
pub mod messages;
pub mod options;
pub mod stream;
pub mod supervisor;
pub mod transfer;
