//! The closed set of failures of the settings store and its commands.
use vstd::prelude::*;
use vstd::string::StringExecFns;

verus! {

/// A failure, by kind, with the underlying cause as text.
///
/// That no document has been saved yet is not among them: loading then
/// succeeds with the blank document.
#[derive(Clone, Debug, PartialEq)]
pub enum ConfigError {
    /// The per-user data directory could not be determined or created.
    PathResolution(String),
    /// The store could not be opened, its table could not be created, or the
    /// lock around its connection was poisoned or held no connection.
    StorageInit(String),
    /// Writing the document's row failed.
    Write(String),
    /// Reading the document's row failed (a missing row is no failure).
    Read(String),
    /// The document could not be encoded.
    Serialize(String),
    /// The stored text is not a valid encoding of a document.
    Deserialize(String),
}

/// The words that open the message of each kind of failure.
pub open spec fn message_prefix(e: ConfigError) -> Seq<char> {
    match e {
        ConfigError::PathResolution(_) => "Failed to resolve the data directory: "@,
        ConfigError::StorageInit(_) => "Failed to initialize database: "@,
        ConfigError::Write(_) => "Failed to save config to DB: "@,
        ConfigError::Read(_) => "Failed to load config from DB: "@,
        ConfigError::Serialize(_) => "Failed to serialize config: "@,
        ConfigError::Deserialize(_) => "Failed to deserialize config: "@,
    }
}

/// The cause that a failure carries.
pub open spec fn cause_of(e: ConfigError) -> Seq<char> {
    match e {
        ConfigError::PathResolution(c) => c@,
        ConfigError::StorageInit(c) => c@,
        ConfigError::Write(c) => c@,
        ConfigError::Read(c) => c@,
        ConfigError::Serialize(c) => c@,
        ConfigError::Deserialize(c) => c@,
    }
}

impl ConfigError {
    /// The failure when the lock around the store's connection is poisoned: an
    /// earlier holder failed while holding it. It is fatal, of the
    /// initialization kind, and not retried.
    pub fn lock_poisoned() -> (r: ConfigError)
        ensures
            r is StorageInit,
            cause_of(r) == "Failed to lock DB mutex"@,
    {
        ConfigError::StorageInit(String::from_str("Failed to lock DB mutex"))
    }

    /// The cause that this failure carries.
    pub fn cause(&self) -> (r: &String)
        ensures
            r@ == cause_of(*self),
    {
        match self {
            ConfigError::PathResolution(c) => c,
            ConfigError::StorageInit(c) => c,
            ConfigError::Write(c) => c,
            ConfigError::Read(c) => c,
            ConfigError::Serialize(c) => c,
            ConfigError::Deserialize(c) => c,
        }
    }

    /// A descriptive message: the kind's opening words followed by the cause.
    pub fn message(&self) -> (r: String)
        ensures
            r@ == message_prefix(*self) + cause_of(*self),
    {
        let prefix = match self {
            ConfigError::PathResolution(_) => "Failed to resolve the data directory: ",
            ConfigError::StorageInit(_) => "Failed to initialize database: ",
            ConfigError::Write(_) => "Failed to save config to DB: ",
            ConfigError::Read(_) => "Failed to load config from DB: ",
            ConfigError::Serialize(_) => "Failed to serialize config: ",
            ConfigError::Deserialize(_) => "Failed to deserialize config: ",
        };
        String::from_str(prefix).concat(self.cause().as_str())
    }
}

} // verus!
