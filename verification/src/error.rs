//! The error type shared by every fallible operation of the library.
//!
//! Errors raised by outside tooling (the chain binaries, the filesystem,
//! serializers) are carried as plain strings: the surrounding binary converts
//! its concrete error values into these variants before handing control to
//! the library, and formats them back for the user on the way out.

use vstd::prelude::*;

verus! {

/// Everything that can go wrong during a Warp command.
#[derive(Debug, Clone, PartialEq, Eq)]
pub enum WarpError {
    /// An I/O operation of the surrounding binary failed.
    IOError(String),
    /// Serializing a document to TOML failed.
    TomlSerializationError(String),
    /// Parsing a TOML document failed.
    TomlDeserializationError(String),
    /// No project file was found in the current directory or any parent.
    ProjectFileNotFound,
    /// A project file already exists at the given path.
    ProjectFileAlreadyExists(String),
    /// The local node exited with the given status code.
    NodeStartupError(i32),
    /// Workspace initialization failed.
    InitFailed,
    /// Could not clone the contract template.
    ContractTemplateCloneFailed,
    /// A byte sequence was not valid UTF-8.
    FromUTF8Error(String),
    /// Parsing a JSON document failed.
    JsonError(String),
    /// The chain reverted a transaction: transaction hash, then raw log text.
    TxFailed(String, String),
    /// No wallet was specified for a transaction.
    UnspecifiedWallet,
    /// The underlying chain binary reported an error on its own channel.
    UnderlyingCliError(String),
    /// A step id could not be matched against the run's tasks or the ledger.
    ContractIdNotFound(String),
}

} // verus!
