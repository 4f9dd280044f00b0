//! The failures that the store reports to its caller.

use vstd::prelude::*;

verus! {

/// The kinds of failure.
#[derive(Clone, Copy, Debug, PartialEq, Eq, Structural)]
pub enum ErrorKind {
    /// A required setting is missing or invalid.
    Configuration,
    /// The engine could not be reached or opened.
    Connection,
    /// A table or an index could not be created.
    Schema,
    /// The embedding provider failed.
    Embedding,
    /// A count of vectors, or the length of one, does not fit.
    DimensionMismatch,
    /// Metadata could not be written as text or read back from it, or a
    /// batch is too large to be encoded.
    Encoding,
    /// The engine failed to open a table, to append or to answer a query.
    Engine,
}

/// A failure: its kind, and a description for the caller.
#[derive(Clone, Debug, PartialEq, Eq)]
pub enum StoreError {
    Configuration(String),
    Connection(String),
    Schema(String),
    Embedding(String),
    DimensionMismatch(String),
    Encoding(String),
    Engine(String),
}

impl StoreError {
    /// The kind of the failure, for contracts.
    pub open spec fn spec_kind(&self) -> ErrorKind {
        match *self {
            StoreError::Configuration(_) => ErrorKind::Configuration,
            StoreError::Connection(_) => ErrorKind::Connection,
            StoreError::Schema(_) => ErrorKind::Schema,
            StoreError::Embedding(_) => ErrorKind::Embedding,
            StoreError::DimensionMismatch(_) => ErrorKind::DimensionMismatch,
            StoreError::Encoding(_) => ErrorKind::Encoding,
            StoreError::Engine(_) => ErrorKind::Engine,
        }
    }

    /// The description, for contracts.
    pub open spec fn spec_message(&self) -> Seq<char> {
        match *self {
            StoreError::Configuration(m) => m@,
            StoreError::Connection(m) => m@,
            StoreError::Schema(m) => m@,
            StoreError::Embedding(m) => m@,
            StoreError::DimensionMismatch(m) => m@,
            StoreError::Encoding(m) => m@,
            StoreError::Engine(m) => m@,
        }
    }

    /// The kind of the failure.
    #[verifier::when_used_as_spec(spec_kind)]
    pub fn kind(&self) -> (kind: ErrorKind)
        ensures
            kind == self.spec_kind(),
    {
        match self {
            StoreError::Configuration(_) => ErrorKind::Configuration,
            StoreError::Connection(_) => ErrorKind::Connection,
            StoreError::Schema(_) => ErrorKind::Schema,
            StoreError::Embedding(_) => ErrorKind::Embedding,
            StoreError::DimensionMismatch(_) => ErrorKind::DimensionMismatch,
            StoreError::Encoding(_) => ErrorKind::Encoding,
            StoreError::Engine(_) => ErrorKind::Engine,
        }
    }

    /// The description that the failure carries.
    pub fn message(&self) -> (text: &String)
        ensures
            text@ == self.spec_message(),
    {
        match self {
            StoreError::Configuration(m) => m,
            StoreError::Connection(m) => m,
            StoreError::Schema(m) => m,
            StoreError::Embedding(m) => m,
            StoreError::DimensionMismatch(m) => m,
            StoreError::Encoding(m) => m,
            StoreError::Engine(m) => m,
        }
    }
}

} // verus!
