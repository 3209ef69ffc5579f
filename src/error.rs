//! Errors of the scaffolding operations.

use vstd::prelude::*;

verus! {

/// Every way in which an operation of this library can fail.
#[derive(Debug)]
pub enum ProgramError {
    /// The home directory of the user cannot be resolved.
    NoHomeFound,
    /// No Solana install was found at the given path.
    SolanaNotFound(String),
    /// The project directory of the given name exists already.
    ProjectExistsError(String),
    /// The `program` directory exists already.
    ProgramExistsError,
    /// A manifest could not be parsed.
    CargoError(String),
    /// The command line could not be parsed.
    ClapError(String),
    /// A filesystem operation failed.
    IoError(String),
    /// A manifest could not be serialized.
    TomlError(String),
    /// The version file is not a well-formed YAML document.
    YamlError(String),
    /// The version file has no string field holding the release channel.
    VersionFieldMissing,
}

/// The result of an operation of this library.
pub type CargoResult<T> = Result<T, ProgramError>;

} // verus!
