use vstd::prelude::*;

verus! {

/// The error kinds that operations of this crate report.
#[derive(Debug, Clone, Copy, PartialEq, Eq, Structural)]
pub enum Error {
    /// Malformed or inconsistent metadata: a required key is missing, a field
    /// is out of range, or an invariant of the metadata tree is violated.
    InvalidMetadata,
    /// A schema or a column referenced by a partition spec is not present.
    SchemaMismatch,
    /// The object store or the catalog failed to perform a transfer.
    IOFailure,
    /// The catalog's compare-and-swap lost against a concurrent commit.
    CommitConflict,
    /// Concurrent state makes a staged operation semantically invalid.
    ValidationFailure,
    /// A table, namespace, snapshot or manifest is missing.
    NotFound,
    /// A file format, transform or format version this crate does not support.
    Unsupported,
}

impl Error {
    /// A short description of the error kind.
    pub fn message(&self) -> (r: &'static str)
        ensures
            r@.len() > 0,
    {
        proof {
            reveal_strlit("invalid metadata");
            reveal_strlit("schema mismatch");
            reveal_strlit("io failure");
            reveal_strlit("commit conflict");
            reveal_strlit("validation failure");
            reveal_strlit("not found");
            reveal_strlit("unsupported");
        }
        match self {
            Error::InvalidMetadata => "invalid metadata",
            Error::SchemaMismatch => "schema mismatch",
            Error::IOFailure => "io failure",
            Error::CommitConflict => "commit conflict",
            Error::ValidationFailure => "validation failure",
            Error::NotFound => "not found",
            Error::Unsupported => "unsupported",
        }
    }
}

} // verus!
