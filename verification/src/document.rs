//! Documents, and the options of a call.

use vstd::prelude::*;
use crate::json::Metadata;

verus! {

/// A text with its metadata. A document that a search returns carries the
/// distance that the engine reported for it as its score.
///
/// The score is a double-precision number; it is held as its bit pattern, so
/// that the score of a document that was never scored, `0.0`, is `0`.
#[derive(Debug, PartialEq)]
pub struct Document {
    pub page_content: String,
    pub metadata: Metadata,
    pub score_bits: u64,
}

/// A document, as contracts see it.
pub struct DocumentModel {
    pub page_content: Seq<char>,
    pub metadata: Metadata,
    pub score_bits: u64,
}

impl View for Document {
    type V = DocumentModel;

    open spec fn view(&self) -> DocumentModel {
        DocumentModel {
            page_content: self.page_content@,
            metadata: self.metadata,
            score_bits: self.score_bits,
        }
    }
}

/// The options of one call. An embedder set here takes the place of the
/// store's own for that call.
pub struct VecStoreOptions<E> {
    pub embedder: Option<E>,
}

impl<E> VecStoreOptions<E> {
    /// Options that override nothing.
    pub fn new() -> (options: Self)
        ensures
            options.embedder is None,
    {
        VecStoreOptions { embedder: None }
    }

    /// Options that put the given embedder in the place of the store's own.
    pub fn with_embedder(embedder: E) -> (options: Self)
        ensures
            options.embedder == Some(embedder),
    {
        VecStoreOptions { embedder: Some(embedder) }
    }
}

impl<E> Default for VecStoreOptions<E> {
    fn default() -> (options: Self)
        ensures
            options.embedder is None,
    {
        VecStoreOptions { embedder: None }
    }
}

/// The views of a sequence of documents.
pub open spec fn documents_of(docs: Seq<Document>) -> Seq<DocumentModel> {
    Seq::new(docs.len(), |i: int| docs[i]@)
}

/// The texts of the documents, in order.
pub open spec fn contents_of(docs: Seq<Document>) -> Seq<Seq<char>> {
    Seq::new(docs.len(), |i: int| docs[i].page_content@)
}

/// The text of every document, in the order of the documents: what is handed
/// to the embedding provider in one call.
pub fn page_contents(docs: &Vec<Document>) -> (texts: Vec<String>)
    ensures
        crate::columns::texts_of(texts@) == contents_of(docs@),
{
    let mut texts: Vec<String> = Vec::new();
    let mut i: usize = 0;
    while i < docs.len()
        invariant
            i <= docs.len(),
            texts@.len() == i,
            forall|j: int| 0 <= j < i ==> texts@[j]@ == docs@[j].page_content@,
        decreases docs.len() - i,
    {
        texts.push(docs[i].page_content.clone());
        i = i + 1;
    }
    proof {
        assert(crate::columns::texts_of(texts@) =~= contents_of(docs@));
    }
    texts
}

} // verus!
