//! A vector-store adapter: text documents and their embedding vectors are kept
//! in a columnar table and found again by nearest-neighbour search.

pub mod error;
pub mod columns;
pub mod json;
pub mod ident;
pub mod document;
pub mod codec;
pub mod store;
pub mod builder;
pub mod provision;
pub mod ingest;
pub mod query;
