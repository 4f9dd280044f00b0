//! The query pipeline: the vector of a query becomes a nearest-neighbour
//! request, and the rows that the engine returns become documents.
//!
//! The embedding provider and the engine are the caller's to call. The
//! pipeline is given what they answered and decides what follows.

use vstd::prelude::*;
use crate::codec::RowBatch;
use crate::codec::all_decodable;
use crate::codec::all_well_formed;
use crate::codec::batch_rows;
use crate::codec::collect_rows;
use crate::codec::decode_rows;
use crate::codec::decoded_rows;
use crate::codec::kept_rows;
use crate::document::Document;
use crate::document::DocumentModel;
use crate::document::documents_of;
use crate::error::ErrorKind;
use crate::error::StoreError;
use crate::provision::EMBEDDING_COLUMN;
use crate::store::Store;
use crate::store::StoreModel;

verus! {

/// How the engine measures how far two vectors are apart.
#[derive(Clone, Copy, Debug, PartialEq, Eq, Structural)]
pub enum DistanceMetric {
    /// By the angle between them: the smaller the distance, the closer.
    Cosine,
}

/// A nearest-neighbour request: up to `limit` rows of the table whose vectors
/// in `column` are nearest to `vector` by `metric`.
#[derive(Clone, Debug, PartialEq, Eq)]
pub struct SearchRequest {
    pub table: String,
    pub column: String,
    pub vector: Vec<u64>,
    pub metric: DistanceMetric,
    pub limit: usize,
}

/// A request, as contracts see it.
pub struct SearchRequestModel {
    pub table: Seq<char>,
    pub column: Seq<char>,
    pub vector: Seq<u64>,
    pub metric: DistanceMetric,
    pub limit: usize,
}

impl View for SearchRequest {
    type V = SearchRequestModel;

    open spec fn view(&self) -> SearchRequestModel {
        SearchRequestModel {
            table: self.table@,
            column: self.column@,
            vector: self.vector@,
            metric: self.metric,
            limit: self.limit,
        }
    }
}

/// The request for a query vector, or why there is none: the store's vector
/// length is not positive, or the vector has another length.
pub open spec fn request_for<C, E>(store: StoreModel<C, E>, vector: Seq<u64>, limit: usize) -> Result<
    SearchRequestModel,
    ErrorKind,
> {
    if store.vector_dimensions <= 0 {
        Err(ErrorKind::Configuration)
    } else if vector.len() != store.vector_dimensions {
        Err(ErrorKind::DimensionMismatch)
    } else {
        Ok(
            SearchRequestModel {
                table: store.table,
                column: EMBEDDING_COLUMN@,
                vector,
                metric: DistanceMetric::Cosine,
                limit,
            },
        )
    }
}

/// The result of a search for at most `limit` documents, given the batches
/// that the engine returned. With a limit of zero the result is empty whatever
/// was returned. Otherwise the first `limit` rows are decoded, in the order in
/// which the engine gave them.
pub open spec fn search_result(limit: usize, batches: Seq<RowBatch>) -> Result<
    Seq<DocumentModel>,
    ErrorKind,
> {
    if limit == 0 {
        Ok(Seq::empty())
    } else if !all_well_formed(batches) {
        Err(ErrorKind::Engine)
    } else if !all_decodable(kept_rows(batch_rows(batches), limit as int)) {
        Err(ErrorKind::Encoding)
    } else {
        Ok(decoded_rows(kept_rows(batch_rows(batches), limit as int)))
    }
}

/// A search never returns more documents than the limit allows.
pub proof fn lemma_limit_respected(limit: usize, batches: Seq<RowBatch>)
    ensures
        search_result(limit, batches) matches Ok(documents) ==> documents.len() <= limit,
{
}

/// A search on a table without rows returns no documents, and does not fail.
pub proof fn lemma_empty_table(limit: usize, batches: Seq<RowBatch>)
    requires
        all_well_formed(batches),
        batch_rows(batches).len() == 0,
    ensures
        search_result(limit, batches) == Ok::<Seq<DocumentModel>, ErrorKind>(Seq::empty()),
{
    if limit > 0 {
        let kept = kept_rows(batch_rows(batches), limit as int);
        assert(kept.len() == 0);
        assert(decoded_rows(kept) =~= Seq::empty());
    }
}

/// The documents of a result stand in the order of the returned rows, and the
/// score of each is the distance that the engine reported for its row.
pub proof fn lemma_engine_order(limit: usize, batches: Seq<RowBatch>, i: int)
    requires
        search_result(limit, batches) is Ok,
        0 <= i < search_result(limit, batches)->Ok_0.len(),
    ensures
        i < batch_rows(batches).len(),
        search_result(limit, batches)->Ok_0[i].page_content == batch_rows(batches)[i].text,
        search_result(limit, batches)->Ok_0[i].score_bits == batch_rows(batches)[i].distance_bits,
{
}

impl<C, E> Store<C, E> {
    /// The nearest-neighbour request for a query, given what the embedding
    /// provider answered for its text.
    pub fn search_request(&self, embedded: Result<Vec<u64>, String>, limit: usize) -> (request:
        Result<SearchRequest, StoreError>)
        ensures
            match embedded {
                Err(reason) => if self@.vector_dimensions <= 0 {
                    request matches Err(e) && e.kind() == ErrorKind::Configuration
                } else {
                    request matches Err(StoreError::Embedding(m)) && m@ == reason@
                },
                Ok(vector) => match request_for(self@, vector@, limit) {
                    Ok(model) => request matches Ok(r) && r@ == model,
                    Err(kind) => request matches Err(e) && e.kind() == kind,
                },
            },
    {
        let vector_dimensions = self.vector_dimensions();
        if vector_dimensions <= 0 {
            return Err(
                StoreError::Configuration("The vector dimensions must be positive".to_owned()),
            );
        }
        let vector = match embedded {
            Ok(vector) => vector,
            Err(reason) => {
                return Err(StoreError::Embedding(reason));
            },
        };
        if !crate::codec::has_dimensions(&vector, vector_dimensions) {
            return Err(
                StoreError::DimensionMismatch(
                    "Length of the query vector differs from the vector dimensions of the table".to_owned(),
                ),
            );
        }
        Ok(
            SearchRequest {
                table: self.table().clone(),
                column: EMBEDDING_COLUMN.to_owned(),
                vector,
                metric: DistanceMetric::Cosine,
                limit,
            },
        )
    }

    /// The documents of a search for at most `limit` of them, given what the
    /// engine answered to the request.
    pub fn similarity_search(&self, limit: usize, answered: Result<Vec<RowBatch>, String>) -> (found:
        Result<Vec<Document>, StoreError>)
        ensures
            limit == 0 ==> (found matches Ok(docs) && docs@.len() == 0),
            limit > 0 ==> match answered {
                Err(reason) => found matches Err(StoreError::Engine(m)) && m@ == reason@,
                Ok(batches) => match search_result(limit, batches@) {
                    Ok(model) => found matches Ok(docs) && documents_of(docs@) == model,
                    Err(kind) => found matches Err(e) && e.kind() == kind,
                },
            },
            found matches Ok(docs) ==> docs@.len() <= limit,
            answered is Ok && all_well_formed(answered->Ok_0@) && batch_rows(
                answered->Ok_0@,
            ).len() == 0 ==> (found matches Ok(docs) && docs@.len() == 0),
    {
        if limit == 0 {
            return Ok(Vec::new());
        }
        let batches = match answered {
            Ok(batches) => batches,
            Err(reason) => {
                return Err(StoreError::Engine(reason));
            },
        };
        let rows = match collect_rows(&batches) {
            Ok(rows) => rows,
            Err(error) => {
                return Err(error);
            },
        };
        let found = decode_rows(&rows, limit);
        proof {
            lemma_limit_respected(limit, batches@);
            if batch_rows(batches@).len() == 0 {
                lemma_empty_table(limit, batches@);
            }
            if found is Ok {
                assert(documents_of(found->Ok_0@).len() == found->Ok_0@.len());
            }
        }
        found
    }
}

} // verus!
