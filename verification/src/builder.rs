//! Configuration of a store, checked in one step when the store is built.

use vstd::prelude::*;
use crate::error::StoreError;
use crate::store::Store;
use crate::store::StoreModel;

verus! {

/// Where the engine comes from: a handle that is already open, or an address
/// that still has to be opened. A builder holds at most one of the two.
pub enum ConnectionSource<C> {
    Handle(C),
    Url(String),
}

/// Where the engine comes from, as contracts see it.
pub enum SourceModel<C> {
    Handle(C),
    Url(Seq<char>),
}

impl<C> View for ConnectionSource<C> {
    type V = SourceModel<C>;

    open spec fn view(&self) -> SourceModel<C> {
        match *self {
            ConnectionSource::Handle(handle) => SourceModel::Handle(handle),
            ConnectionSource::Url(url) => SourceModel::Url(url@),
        }
    }
}

/// What a builder holds, as contracts see it.
pub struct BuilderModel<C, E> {
    pub source: Option<SourceModel<C>>,
    pub table: Seq<char>,
    pub vector_dimensions: i32,
    pub embedder: Option<E>,
}

/// Collects the settings of a store.
pub struct StoreBuilder<C, E> {
    source: Option<ConnectionSource<C>>,
    table: String,
    vector_dimensions: i32,
    embedder: Option<E>,
}

/// A store whose settings are complete but whose engine is not open yet.
pub struct PendingStore<E> {
    url: String,
    table: String,
    vector_dimensions: i32,
    embedder: E,
}

/// A pending store, as contracts see it.
pub struct PendingModel<E> {
    pub url: Seq<char>,
    pub table: Seq<char>,
    pub vector_dimensions: i32,
    pub embedder: E,
}

/// What `build` hands back once the settings are accepted.
pub enum BuildStep<C, E> {
    /// A handle was configured: the store is complete.
    Ready(Store<C, E>),
    /// Only an address is known: the caller opens it and completes the store.
    Connect(PendingStore<E>),
}

/// The table that a store uses when none is named.
pub open spec fn default_table() -> Seq<char> {
    "documents"@
}

/// The address that is opened when neither a handle nor an address is set.
pub open spec fn default_url() -> Seq<char> {
    "./tmp/tmp_lancedb"@
}

/// The description of the failure of a build without an embedder.
pub open spec fn missing_embedder() -> Seq<char> {
    "Embedder is required"@
}

impl<C, E> View for StoreBuilder<C, E> {
    type V = BuilderModel<C, E>;

    closed spec fn view(&self) -> BuilderModel<C, E> {
        BuilderModel {
            source: match self.source {
                Some(source) => Some(source@),
                None => None,
            },
            table: self.table@,
            vector_dimensions: self.vector_dimensions,
            embedder: self.embedder,
        }
    }
}

impl<E> View for PendingStore<E> {
    type V = PendingModel<E>;

    closed spec fn view(&self) -> PendingModel<E> {
        PendingModel {
            url: self.url@,
            table: self.table@,
            vector_dimensions: self.vector_dimensions,
            embedder: self.embedder,
        }
    }
}

impl<C, E> StoreBuilder<C, E> {
    /// A builder with the defaults: no engine, the table `documents`, zero
    /// dimensions and no embedder.
    pub fn new() -> (builder: Self)
        ensures
            builder@ == (BuilderModel::<C, E> {
                source: None,
                table: default_table(),
                vector_dimensions: 0,
                embedder: None,
            }),
    {
        StoreBuilder {
            source: None,
            table: "documents".to_owned(),
            vector_dimensions: 0,
            embedder: None,
        }
    }

    /// Uses an open handle, and forgets any address set before.
    pub fn connection(self, connection: C) -> (builder: Self)
        ensures
            builder@ == (BuilderModel { source: Some(SourceModel::Handle(connection)), ..self@ }),
    {
        StoreBuilder {
            source: Some(ConnectionSource::Handle(connection)),
            table: self.table,
            vector_dimensions: self.vector_dimensions,
            embedder: self.embedder,
        }
    }

    /// Uses an address, and forgets any handle set before.
    pub fn connection_url(self, connection_url: &str) -> (builder: Self)
        ensures
            builder@ == (BuilderModel { source: Some(SourceModel::Url(connection_url@)), ..self@ }),
    {
        StoreBuilder {
            source: Some(ConnectionSource::Url(connection_url.to_owned())),
            table: self.table,
            vector_dimensions: self.vector_dimensions,
            embedder: self.embedder,
        }
    }

    /// Names the table.
    pub fn table(self, table: &str) -> (builder: Self)
        ensures
            builder@ == (BuilderModel { table: table@, ..self@ }),
    {
        StoreBuilder {
            source: self.source,
            table: table.to_owned(),
            vector_dimensions: self.vector_dimensions,
            embedder: self.embedder,
        }
    }

    /// Sets the length that every embedding vector of the table has.
    pub fn vector_dimensions(self, vector_dimensions: i32) -> (builder: Self)
        ensures
            builder@ == (BuilderModel { vector_dimensions, ..self@ }),
    {
        StoreBuilder {
            source: self.source,
            table: self.table,
            vector_dimensions,
            embedder: self.embedder,
        }
    }

    /// Sets the embedding provider that the store uses by default.
    pub fn embedder(self, embedder: E) -> (builder: Self)
        ensures
            builder@ == (BuilderModel { embedder: Some(embedder), ..self@ }),
    {
        StoreBuilder {
            source: self.source,
            table: self.table,
            vector_dimensions: self.vector_dimensions,
            embedder: Some(embedder),
        }
    }

    /// Checks the settings. Without an embedder the build fails. With a handle
    /// the store is complete; otherwise the caller is told which address to
    /// open: the one configured, or the default.
    pub fn build(self) -> (step: Result<BuildStep<C, E>, StoreError>)
        ensures
            match self@.embedder {
                None => step matches Err(StoreError::Configuration(m)) && m@ == missing_embedder(),
                Some(embedder) => match self@.source {
                    Some(SourceModel::Handle(connection)) => step matches Ok(
                        BuildStep::Ready(store),
                    ) && store@ == (StoreModel {
                        connection,
                        table: self@.table,
                        vector_dimensions: self@.vector_dimensions,
                        embedder,
                    }),
                    Some(SourceModel::Url(url)) => step matches Ok(BuildStep::Connect(pending))
                        && pending@ == (PendingModel {
                        url,
                        table: self@.table,
                        vector_dimensions: self@.vector_dimensions,
                        embedder,
                    }),
                    None => step matches Ok(BuildStep::Connect(pending)) && pending@
                        == (PendingModel {
                        url: default_url(),
                        table: self@.table,
                        vector_dimensions: self@.vector_dimensions,
                        embedder,
                    }),
                },
            },
    {
        let embedder = match self.embedder {
            Some(e) => e,
            None => {
                return Err(StoreError::Configuration("Embedder is required".to_owned()));
            },
        };
        match self.source {
            Some(ConnectionSource::Handle(connection)) => Ok(
                BuildStep::Ready(
                    Store::new(connection, self.table, self.vector_dimensions, embedder),
                ),
            ),
            Some(ConnectionSource::Url(url)) => Ok(
                BuildStep::Connect(
                    PendingStore {
                        url,
                        table: self.table,
                        vector_dimensions: self.vector_dimensions,
                        embedder,
                    },
                ),
            ),
            None => Ok(
                BuildStep::Connect(
                    PendingStore {
                        url: "./tmp/tmp_lancedb".to_owned(),
                        table: self.table,
                        vector_dimensions: self.vector_dimensions,
                        embedder,
                    },
                ),
            ),
        }
    }
}

impl<C, E> Default for StoreBuilder<C, E> {
    fn default() -> (builder: Self)
        ensures
            builder@ == (BuilderModel::<C, E> {
                source: None,
                table: default_table(),
                vector_dimensions: 0,
                embedder: None,
            }),
    {
        Self::new()
    }
}

impl<E> PendingStore<E> {
    /// The address that the caller is to open.
    pub fn url(&self) -> (url: &String)
        ensures
            url@ == self@.url,
    {
        &self.url
    }

    /// Completes the store with what opening the address gave: the handle, or
    /// the engine's description of why it could not be opened.
    pub fn connected<C>(self, opened: Result<C, String>) -> (store: Result<Store<C, E>, StoreError>)
        ensures
            match opened {
                Ok(connection) => store matches Ok(s) && s@ == (StoreModel {
                    connection,
                    table: self@.table,
                    vector_dimensions: self@.vector_dimensions,
                    embedder: self@.embedder,
                }),
                Err(reason) => store matches Err(StoreError::Connection(m)) && m@ == reason@,
            },
    {
        match opened {
            Ok(connection) => Ok(
                Store::new(connection, self.table, self.vector_dimensions, self.embedder),
            ),
            Err(reason) => Err(StoreError::Connection(reason)),
        }
    }
}

} // verus!
