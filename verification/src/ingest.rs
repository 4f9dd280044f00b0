//! The ingestion pipeline: documents and their vectors become one batch of
//! rows, which the caller appends to the table in one call.
//!
//! The embedding provider and the engine are the caller's to call. The
//! pipeline is given what they answered and decides what follows.

use vstd::prelude::*;
use vstd::utf8::encode_utf8;
use vstd::utf8::is_ascii_chars_encode_utf8;
use crate::codec::ColumnsModel;
use crate::codec::RecordColumns;
use crate::codec::VectorRecord;
use crate::codec::columns_of;
use crate::codec::encode_document;
use crate::codec::encode_failure;
use crate::codec::encode_records;
use crate::codec::records_of;
use crate::codec::uniform_length;
use crate::codec::vectors_of;
use crate::columns::COLUMN_BYTES_MAX;
use crate::columns::fits_column;
use crate::columns::texts_of;
use crate::columns::total_bytes;
use crate::document::Document;
use crate::document::VecStoreOptions;
use crate::document::contents_of;
use crate::error::ErrorKind;
use crate::error::StoreError;
use crate::ident::ID_LENGTH;
use crate::ident::is_record_id;
use crate::ident::lemma_record_id_ascii;
use crate::json::metadata_text;
use crate::store::Store;

verus! {

/// What an ingestion leaves to be done: the batch to append, and the
/// identifiers to return once the engine has taken it.
pub struct Ingestion {
    pub ids: Vec<String>,
    pub columns: RecordColumns,
}

/// The description of the failure where vectors and documents differ in
/// number.
pub open spec fn count_mismatch() -> Seq<char> {
    "Number of vectors and documents do not match"@
}

/// Whether the metadata of every document can be written as text.
pub open spec fn all_written(docs: Seq<Document>) -> bool {
    forall|i: int| 0 <= i < docs.len() ==> metadata_text((#[trigger] docs[i]).metadata) is Some
}

/// The metadata of the documents as text, in their order.
pub open spec fn written_texts(docs: Seq<Document>) -> Seq<Seq<char>> {
    Seq::new(docs.len(), |i: int| metadata_text(docs[i].metadata)->Some_0)
}

/// Whether every identifier has the shape of a record identifier.
pub open spec fn all_record_ids(ids: Seq<Seq<char>>) -> bool {
    forall|i: int| 0 <= i < ids.len() ==> is_record_id(#[trigger] ids[i])
}

/// Why the documents cannot be ingested with these vectors into a table of
/// the given vector length, if they cannot. In this order: the vectors are not
/// as many as the documents; the metadata of some document cannot be written;
/// some vector has another length; the batch is too large for its columns.
pub open spec fn ingest_failure(
    docs: Seq<Document>,
    vectors: Seq<Vec<u64>>,
    vector_dimensions: int,
) -> Option<ErrorKind> {
    if vectors.len() != docs.len() {
        Some(ErrorKind::DimensionMismatch)
    } else if !all_written(docs) {
        Some(ErrorKind::Encoding)
    } else if !uniform_length(vectors_of(vectors), vector_dimensions) {
        Some(ErrorKind::DimensionMismatch)
    } else if !(ID_LENGTH * docs.len() <= COLUMN_BYTES_MAX && fits_column(contents_of(docs))
        && fits_column(written_texts(docs))) {
        Some(ErrorKind::Encoding)
    } else {
        None
    }
}

/// Identifiers are ASCII, so a column of them has 36 bytes for each.
pub proof fn lemma_id_column_bytes(ids: Seq<Seq<char>>)
    requires
        all_record_ids(ids),
    ensures
        total_bytes(ids) == ID_LENGTH * ids.len(),
    decreases ids.len(),
{
    if ids.len() > 0 {
        let rest = ids.drop_last();
        assert forall|i: int| 0 <= i < rest.len() implies is_record_id(#[trigger] rest[i]) by {
            assert(rest[i] == ids[i]);
        }
        lemma_id_column_bytes(rest);
        assert(is_record_id(ids[ids.len() - 1]));
        lemma_record_id_ascii(ids.last());
        is_ascii_chars_encode_utf8(ids.last());
        assert(encode_utf8(ids.last()).len() == ID_LENGTH);
    }
}

/// One row for each document, in the order of the documents: document `i`
/// with vector `i`, under a fresh identifier. Fails before any row is made
/// where the vectors are not as many as the documents.
pub fn assemble_records(docs: &Vec<Document>, vectors: &Vec<Vec<u64>>) -> (assembled: Result<
    Vec<VectorRecord>,
    StoreError,
>)
    ensures
        vectors@.len() != docs@.len() ==> (assembled matches Err(
            StoreError::DimensionMismatch(m),
        ) && m@ == count_mismatch()),
        vectors@.len() == docs@.len() && !all_written(docs@) ==> (assembled matches Err(e)
            && e.kind() == ErrorKind::Encoding),
        vectors@.len() == docs@.len() && all_written(docs@) ==> (assembled matches Ok(records) && {
            let rows = columns_of(records_of(records@));
            &&& rows.ids.len() == docs@.len()
            &&& all_record_ids(rows.ids)
            &&& rows.texts == contents_of(docs@)
            &&& rows.metadatas == written_texts(docs@)
            &&& rows.embeddings == vectors_of(vectors@)
        }),
{
    if vectors.len() != docs.len() {
        return Err(
            StoreError::DimensionMismatch(
                "Number of vectors and documents do not match".to_owned(),
            ),
        );
    }
    let mut records: Vec<VectorRecord> = Vec::new();
    let mut i: usize = 0;
    while i < docs.len()
        invariant
            i <= docs.len(),
            vectors@.len() == docs@.len(),
            records@.len() == i,
            forall|j: int| 0 <= j < i ==> metadata_text((#[trigger] docs@[j]).metadata) is Some,
            forall|j: int|
                0 <= j < i ==> {
                    &&& is_record_id((#[trigger] records@[j]).id@)
                    &&& records@[j].text@ == docs@[j].page_content@
                    &&& records@[j].metadata@ == metadata_text(docs@[j].metadata)->Some_0
                    &&& records@[j].embedding@ == vectors@[j]@
                },
        decreases docs.len() - i,
    {
        let vector = vectors[i].clone();
        proof {
            assert(vector@ =~= vectors@[i as int]@);
        }
        match encode_document(&docs[i], vector) {
            Ok(record) => {
                records.push(record);
            },
            Err(error) => {
                return Err(error);
            },
        }
        i = i + 1;
    }
    proof {
        let rows = columns_of(records_of(records@));
        assert(rows.texts =~= contents_of(docs@));
        assert(rows.metadatas =~= written_texts(docs@));
        assert(rows.embeddings =~= vectors_of(vectors@));
        assert forall|k: int| 0 <= k < rows.ids.len() implies is_record_id(
            #[trigger] rows.ids[k],
        ) by {
            assert(is_record_id(records@[k].id@));
        }
    }
    Ok(records)
}

/// The identifiers of the rows, in the order of the rows.
pub fn record_ids(records: &Vec<VectorRecord>) -> (ids: Vec<String>)
    ensures
        texts_of(ids@) == columns_of(records_of(records@)).ids,
{
    let mut ids: Vec<String> = Vec::new();
    let mut i: usize = 0;
    while i < records.len()
        invariant
            i <= records.len(),
            ids@.len() == i,
            forall|j: int| 0 <= j < i ==> ids@[j]@ == records@[j].id@,
        decreases records.len() - i,
    {
        ids.push(records[i].id.clone());
        i = i + 1;
    }
    proof {
        assert(texts_of(ids@) =~= columns_of(records_of(records@)).ids);
    }
    ids
}

impl<C, E> Store<C, E> {
    /// The embedder of a call: the one in the options where there is one, the
    /// store's own where there is none.
    pub fn active_embedder<'a>(&'a self, options: &'a VecStoreOptions<E>) -> (embedder: &'a E)
        ensures
            *embedder == match options.embedder {
                Some(e) => e,
                None => self@.embedder,
            },
    {
        match &options.embedder {
            Some(e) => e,
            None => self.embedder(),
        }
    }

    /// Turns the documents and what the embedding provider answered for their
    /// texts into the batch to append. Every failure comes before anything is
    /// handed out to be written.
    ///
    /// The identifiers are random: nothing compares them with each other or
    /// with the rows that the table already holds.
    pub fn add_documents(&self, docs: &Vec<Document>, embedded: Result<Vec<Vec<u64>>, String>) -> (
        ingestion: Result<Ingestion, StoreError>
    )
        ensures
            self@.vector_dimensions <= 0 ==> (ingestion matches Err(e) && e.kind()
                == ErrorKind::Configuration),
            self@.vector_dimensions > 0 ==> match embedded {
                Err(reason) => ingestion matches Err(StoreError::Embedding(m)) && m@ == reason@,
                Ok(vectors) => match ingest_failure(docs@, vectors@, self@.vector_dimensions as int) {
                    Some(kind) => ingestion matches Err(e) && e.kind() == kind,
                    None => ingestion matches Ok(i) && i.ids@.len() == docs@.len()
                        && all_record_ids(texts_of(i.ids@)) && i.columns@ == (ColumnsModel {
                        ids: texts_of(i.ids@),
                        texts: contents_of(docs@),
                        metadatas: written_texts(docs@),
                        embeddings: vectors_of(vectors@),
                    }),
                },
            },
            self@.vector_dimensions > 0 && embedded is Ok && embedded->Ok_0@.len() != docs@.len()
                ==> (ingestion matches Err(StoreError::DimensionMismatch(m)) && m@
                == count_mismatch()),
            embedded is Ok && !uniform_length(
                vectors_of(embedded->Ok_0@),
                self@.vector_dimensions as int,
            ) ==> ingestion is Err,
    {
        let vector_dimensions = self.vector_dimensions();
        if vector_dimensions <= 0 {
            return Err(
                StoreError::Configuration("The vector dimensions must be positive".to_owned()),
            );
        }
        let vectors = match embedded {
            Ok(vectors) => vectors,
            Err(reason) => {
                return Err(StoreError::Embedding(reason));
            },
        };
        let records = match assemble_records(docs, &vectors) {
            Ok(records) => records,
            Err(error) => {
                return Err(error);
            },
        };
        let ids = record_ids(&records);
        proof {
            lemma_id_column_bytes(texts_of(ids@));
        }
        match encode_records(&records, vector_dimensions) {
            Ok(columns) => Ok(Ingestion { ids, columns }),
            Err(error) => Err(error),
        }
    }
}

impl<C, E> Store<C, E> {
    /// Ends an ingestion, given the identifiers of its rows and what the
    /// engine answered to the append: the identifiers, in the order of the
    /// documents, or the engine's failure.
    pub fn appended(&self, ids: Vec<String>, outcome: Result<(), String>) -> (done: Result<
        Vec<String>,
        StoreError,
    >)
        ensures
            match outcome {
                Ok(_) => done == Ok::<Vec<String>, StoreError>(ids),
                Err(reason) => done matches Err(StoreError::Engine(m)) && m@ == reason@,
            },
    {
        match outcome {
            Ok(_) => Ok(ids),
            Err(reason) => Err(StoreError::Engine(reason)),
        }
    }
}

} // verus!
