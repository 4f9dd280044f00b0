//! The store: an engine handle, a table name, the vector length and the
//! default embedding provider.

use vstd::prelude::*;

verus! {

/// A configured store. Its settings do not change once it is built.
pub struct Store<C, E> {
    connection: C,
    table: String,
    vector_dimensions: i32,
    embedder: E,
}

/// A store, as contracts see it.
pub struct StoreModel<C, E> {
    pub connection: C,
    pub table: Seq<char>,
    pub vector_dimensions: i32,
    pub embedder: E,
}

impl<C, E> View for Store<C, E> {
    type V = StoreModel<C, E>;

    closed spec fn view(&self) -> StoreModel<C, E> {
        StoreModel {
            connection: self.connection,
            table: self.table@,
            vector_dimensions: self.vector_dimensions,
            embedder: self.embedder,
        }
    }
}

impl<C, E> Store<C, E> {
    /// A store over an open engine handle.
    pub fn new(connection: C, table: String, vector_dimensions: i32, embedder: E) -> (store: Self)
        ensures
            store@ == (StoreModel {
                connection,
                table: table@,
                vector_dimensions,
                embedder,
            }),
    {
        Store { connection, table, vector_dimensions, embedder }
    }

    /// The engine handle.
    pub fn connection(&self) -> (connection: &C)
        ensures
            *connection == self@.connection,
    {
        &self.connection
    }

    /// The name of the table.
    pub fn table(&self) -> (table: &String)
        ensures
            table@ == self@.table,
    {
        &self.table
    }

    /// The length of every embedding vector of the table.
    pub fn vector_dimensions(&self) -> (dimensions: i32)
        ensures
            dimensions == self@.vector_dimensions,
    {
        self.vector_dimensions
    }

    /// The default embedding provider.
    pub fn embedder(&self) -> (embedder: &E)
        ensures
            *embedder == self@.embedder,
    {
        &self.embedder
    }
}

} // verus!
