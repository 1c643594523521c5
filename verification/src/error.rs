//! The library's error type.
//!
//! Every fallible operation of the library reports one of these four
//! conditions.  Faults raised by outside components (the file system,
//! the TOML decoder, the database driver, the TLS layer, the model
//! API) are folded into the same four conditions by [`Error::of_fault`].

use vstd::prelude::*;

verus! {

/// What went wrong, as the user sees it.
#[derive(Debug, Clone, Copy, PartialEq, Eq, Structural)]
pub enum Error {
    /// The configuration file could not be read.
    NotFound,
    /// The configuration file could not be decoded.
    ParseError,
    /// The database could not be reached, or its handle was lost.
    ConnectionError,
    /// A query or a model request failed.
    QueryError,
}

/// The outside component whose failure is being reported.
#[derive(Debug, Clone, Copy, PartialEq, Eq, Structural)]
pub enum Fault {
    /// Reading the configuration file failed.
    FileRead,
    /// Decoding the configuration file failed.
    TomlDecode,
    /// The database driver reported an error.
    Database,
    /// The TLS layer reported an error.
    Tls,
    /// The model API reported an error.
    ModelApi,
    /// The lock guarding the database handle was poisoned.
    LockPoisoned,
}

impl Error {
    /// Folds an outside component's failure into the library's error type.
    pub fn of_fault(fault: Fault) -> (r: Error)
        ensures
            r == match fault {
                Fault::FileRead => Error::NotFound,
                Fault::TomlDecode => Error::ParseError,
                Fault::Database => Error::ConnectionError,
                Fault::Tls => Error::ConnectionError,
                Fault::ModelApi => Error::QueryError,
                Fault::LockPoisoned => Error::ConnectionError,
            },
    {
        match fault {
            Fault::FileRead => Error::NotFound,
            Fault::TomlDecode => Error::ParseError,
            Fault::Database => Error::ConnectionError,
            Fault::Tls => Error::ConnectionError,
            Fault::ModelApi => Error::QueryError,
            Fault::LockPoisoned => Error::ConnectionError,
        }
    }

    /// The message shown for this error.
    pub fn message(&self) -> (r: String)
        ensures
            r@ == match *self {
                Error::NotFound => "Config not found"@,
                Error::ParseError => "Wrong config"@,
                Error::ConnectionError => "Connection error"@,
                Error::QueryError => "Query error"@,
            },
    {
        match *self {
            Error::NotFound => String::from_str("Config not found"),
            Error::ParseError => String::from_str("Wrong config"),
            Error::ConnectionError => String::from_str("Connection error"),
            Error::QueryError => String::from_str("Query error"),
        }
    }
}

} // verus!
