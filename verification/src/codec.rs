//! The record codec: stored rows, and the columnar batch that holds them.
//!
//! Embedding vectors and distances are floating-point numbers. The codec
//! carries each as its bit pattern and never computes with it.

use vstd::prelude::*;
use crate::columns::TextColumn;
use crate::columns::array_value;
use crate::columns::fits_column;
use crate::columns::texts_of;
use crate::document::Document;
use crate::document::DocumentModel;
use crate::document::documents_of;
use crate::error::ErrorKind;
use crate::error::StoreError;
use crate::ident::is_record_id;
use crate::ident::random_id;
use crate::json::Metadata;
use crate::json::describe_json_error;
use crate::json::metadata_text;
use crate::json::read_metadata;
use crate::json::text_metadata;
use crate::json::write_metadata;

verus! {

/// One stored row: the identifier given at write time, the text, the metadata
/// as JSON text, and the embedding vector (one bit pattern per component).
#[derive(Clone, Debug, PartialEq, Eq)]
pub struct VectorRecord {
    pub id: String,
    pub text: String,
    pub metadata: String,
    pub embedding: Vec<u64>,
}

/// A stored row, as contracts see it.
pub struct RecordModel {
    pub id: Seq<char>,
    pub text: Seq<char>,
    pub metadata: Seq<char>,
    pub embedding: Seq<u64>,
}

impl View for VectorRecord {
    type V = RecordModel;

    open spec fn view(&self) -> RecordModel {
        RecordModel {
            id: self.id@,
            text: self.text@,
            metadata: self.metadata@,
            embedding: self.embedding@,
        }
    }
}

/// A batch of rows, column by column, in the order of the table's columns.
pub struct RecordColumns {
    pub ids: TextColumn,
    pub texts: TextColumn,
    pub metadatas: TextColumn,
    pub embeddings: Vec<Vec<u64>>,
}

/// A batch, as contracts see it.
pub struct ColumnsModel {
    pub ids: Seq<Seq<char>>,
    pub texts: Seq<Seq<char>>,
    pub metadatas: Seq<Seq<char>>,
    pub embeddings: Seq<Seq<u64>>,
}

/// The views of a sequence of vectors.
pub open spec fn vectors_of(vectors: Seq<Vec<u64>>) -> Seq<Seq<u64>> {
    Seq::new(vectors.len(), |i: int| vectors[i]@)
}

impl View for RecordColumns {
    type V = ColumnsModel;

    open spec fn view(&self) -> ColumnsModel {
        ColumnsModel {
            ids: self.ids@,
            texts: self.texts@,
            metadatas: self.metadatas@,
            embeddings: vectors_of(self.embeddings@),
        }
    }
}

/// The views of a sequence of rows.
pub open spec fn records_of(records: Seq<VectorRecord>) -> Seq<RecordModel> {
    Seq::new(records.len(), |i: int| records[i]@)
}

/// The batch that holds the rows: column `c` has, at position `i`, field `c`
/// of row `i`.
pub open spec fn columns_of(records: Seq<RecordModel>) -> ColumnsModel {
    ColumnsModel {
        ids: Seq::new(records.len(), |i: int| records[i].id),
        texts: Seq::new(records.len(), |i: int| records[i].text),
        metadatas: Seq::new(records.len(), |i: int| records[i].metadata),
        embeddings: Seq::new(records.len(), |i: int| records[i].embedding),
    }
}

/// Whether every vector has the given length.
pub open spec fn uniform_length(vectors: Seq<Seq<u64>>, length: int) -> bool {
    forall|i: int| 0 <= i < vectors.len() ==> (#[trigger] vectors[i]).len() == length
}

/// Why the rows cannot be encoded for a table of the given vector length, if
/// they cannot: a vector of another length, or a text column too large.
pub open spec fn encode_failure(records: Seq<RecordModel>, vector_dimensions: int) -> Option<
    ErrorKind,
> {
    let columns = columns_of(records);
    if !uniform_length(columns.embeddings, vector_dimensions) {
        Some(ErrorKind::DimensionMismatch)
    } else if !(fits_column(columns.ids) && fits_column(columns.texts) && fits_column(
        columns.metadatas,
    )) {
        Some(ErrorKind::Encoding)
    } else {
        None
    }
}

/// Whether the vector has exactly as many components as the table asks for.
pub fn has_dimensions(vector: &Vec<u64>, vector_dimensions: i32) -> (fits: bool)
    ensures
        fits == (vector@.len() == vector_dimensions),
{
    vector_dimensions >= 0 && vector.len() == vector_dimensions as usize
}

/// Encodes the rows as one columnar batch for a table whose vectors have
/// `vector_dimensions` components. A vector of any other length is refused:
/// nothing is cut or filled up.
pub fn encode_records(records: &Vec<VectorRecord>, vector_dimensions: i32) -> (encoded: Result<
    RecordColumns,
    StoreError,
>)
    ensures
        match encode_failure(records_of(records@), vector_dimensions as int) {
            Some(kind) => encoded matches Err(e) && e.kind() == kind,
            None => encoded matches Ok(columns) && columns@ == columns_of(records_of(records@)),
        },
{
    let ghost model = columns_of(records_of(records@));
    let mut ids: Vec<String> = Vec::new();
    let mut texts: Vec<String> = Vec::new();
    let mut metadatas: Vec<String> = Vec::new();
    let mut embeddings: Vec<Vec<u64>> = Vec::new();
    let mut i: usize = 0;
    while i < records.len()
        invariant
            i <= records.len(),
            model == columns_of(records_of(records@)),
            ids@.len() == i,
            texts@.len() == i,
            metadatas@.len() == i,
            embeddings@.len() == i,
            forall|j: int| 0 <= j < i ==> ids@[j]@ == model.ids[j],
            forall|j: int| 0 <= j < i ==> texts@[j]@ == model.texts[j],
            forall|j: int| 0 <= j < i ==> metadatas@[j]@ == model.metadatas[j],
            forall|j: int| 0 <= j < i ==> embeddings@[j]@ == model.embeddings[j],
            forall|j: int| 0 <= j < i ==> (#[trigger] model.embeddings[j]).len() == vector_dimensions,
        decreases records.len() - i,
    {
        let record = &records[i];
        if !has_dimensions(&record.embedding, vector_dimensions) {
            proof {
                assert(model.embeddings[i as int].len() != vector_dimensions);
            }
            return Err(
                StoreError::DimensionMismatch(
                    "Length of a vector differs from the vector dimensions of the table".to_owned(),
                ),
            );
        }
        let embedding = record.embedding.clone();
        proof {
            assert(embedding@ =~= record.embedding@);
        }
        ids.push(record.id.clone());
        texts.push(record.text.clone());
        metadatas.push(record.metadata.clone());
        embeddings.push(embedding);
        i = i + 1;
    }
    proof {
        assert(texts_of(ids@) =~= model.ids);
        assert(texts_of(texts@) =~= model.texts);
        assert(texts_of(metadatas@) =~= model.metadatas);
        assert(vectors_of(embeddings@) =~= model.embeddings);
    }
    let id_column = match TextColumn::from_texts(&ids) {
        Some(column) => column,
        None => {
            return Err(StoreError::Encoding("The identifiers exceed one column".to_owned()));
        },
    };
    let text_column = match TextColumn::from_texts(&texts) {
        Some(column) => column,
        None => {
            return Err(StoreError::Encoding("The texts exceed one column".to_owned()));
        },
    };
    let metadata_column = match TextColumn::from_texts(&metadatas) {
        Some(column) => column,
        None => {
            return Err(StoreError::Encoding("The metadata exceeds one column".to_owned()));
        },
    };
    Ok(
        RecordColumns {
            ids: id_column,
            texts: text_column,
            metadatas: metadata_column,
            embeddings,
        },
    )
}

/// The rows that the engine returned in one batch: the text column, the
/// metadata column, and the distance that it reported for each row.
pub struct RowBatch {
    pub texts: TextColumn,
    pub metadatas: TextColumn,
    pub distances: Vec<u64>,
}

/// One returned row.
#[derive(Clone, Debug, PartialEq, Eq)]
pub struct ResultRow {
    pub text: String,
    pub metadata: String,
    pub distance_bits: u64,
}

/// A returned row, as contracts see it.
pub struct RowModel {
    pub text: Seq<char>,
    pub metadata: Seq<char>,
    pub distance_bits: u64,
}

impl View for ResultRow {
    type V = RowModel;

    open spec fn view(&self) -> RowModel {
        RowModel { text: self.text@, metadata: self.metadata@, distance_bits: self.distance_bits }
    }
}

impl RowBatch {
    /// Whether the three columns have one length.
    pub open spec fn well_formed(&self) -> bool {
        &&& self.metadatas@.len() == self.texts@.len()
        &&& self.distances@.len() == self.texts@.len()
    }

    /// The rows of the batch, in order.
    pub open spec fn rows(&self) -> Seq<RowModel> {
        Seq::new(
            self.texts@.len(),
            |i: int|
                RowModel {
                    text: self.texts@[i],
                    metadata: self.metadatas@[i],
                    distance_bits: self.distances@[i],
                },
        )
    }
}

/// The views of a sequence of rows.
pub open spec fn rows_of(rows: Seq<ResultRow>) -> Seq<RowModel> {
    Seq::new(rows.len(), |i: int| rows[i]@)
}

/// Whether every batch is well formed.
pub open spec fn all_well_formed(batches: Seq<RowBatch>) -> bool {
    forall|i: int| 0 <= i < batches.len() ==> (#[trigger] batches[i]).well_formed()
}

/// The rows of all the batches: those of the first batch, then those of the
/// second, and so on.
pub open spec fn batch_rows(batches: Seq<RowBatch>) -> Seq<RowModel>
    decreases batches.len(),
{
    if batches.len() == 0 {
        Seq::empty()
    } else {
        batch_rows(batches.drop_last()) + batches.last().rows()
    }
}

/// Takes the rows out of the batches, in the order in which the engine gave
/// them. A batch whose columns differ in length is the engine's fault.
pub fn collect_rows(batches: &Vec<RowBatch>) -> (collected: Result<Vec<ResultRow>, StoreError>)
    ensures
        all_well_formed(batches@) ==> (collected matches Ok(rows) && rows_of(rows@) == batch_rows(
            batches@,
        )),
        !all_well_formed(batches@) ==> (collected matches Err(e) && e.kind() == ErrorKind::Engine),
{
    let mut rows: Vec<ResultRow> = Vec::new();
    let mut b: usize = 0;
    while b < batches.len()
        invariant
            b <= batches.len(),
            forall|k: int| 0 <= k < b ==> (#[trigger] batches@[k]).well_formed(),
            rows_of(rows@) == batch_rows(batches@.take(b as int)),
        decreases batches.len() - b,
    {
        let batch = &batches[b];
        let n = batch.texts.len();
        if batch.metadatas.len() != n || batch.distances.len() != n {
            return Err(
                StoreError::Engine("The columns of a returned batch differ in length".to_owned()),
            );
        }
        let ghost before = rows_of(rows@);
        let mut i: usize = 0;
        while i < n
            invariant
                i <= n,
                n == batch.texts@.len(),
                batch.well_formed(),
                rows_of(rows@) == before + batch.rows().take(i as int),
            decreases n - i,
        {
            let row = ResultRow {
                text: array_value(&batch.texts, i),
                metadata: array_value(&batch.metadatas, i),
                distance_bits: batch.distances[i],
            };
            let ghost earlier = rows_of(rows@);
            rows.push(row);
            proof {
                assert(batch.rows().take(i + 1) =~= batch.rows().take(i as int).push(
                    batch.rows()[i as int],
                ));
                assert(rows_of(rows@) =~= earlier.push(row@));
                assert(rows_of(rows@) =~= before + batch.rows().take(i + 1));
            }
            i = i + 1;
        }
        proof {
            assert(batch.rows().take(n as int) =~= batch.rows());
            assert(batches@.take(b + 1).drop_last() =~= batches@.take(b as int));
            assert(batches@.take(b + 1).last() == batches@[b as int]);
        }
        b = b + 1;
    }
    proof {
        assert(batches@.take(b as int) =~= batches@);
    }
    Ok(rows)
}

/// What was written or read, or else the description of the failure.
fn described<T>(outcome: Result<T, serde_json::Error>) -> (described: Result<T, String>)
    ensures
        match outcome {
            Ok(value) => described == Ok::<T, String>(value),
            Err(_) => described is Err,
        },
{
    match outcome {
        Ok(value) => Ok(value),
        Err(error) => Err(describe_json_error(&error)),
    }
}

/// The row for a document, given its identifier, its metadata as text (or why
/// the metadata could not be written) and its vector.
pub fn record_for(
    doc: &Document,
    id: String,
    written: Result<String, String>,
    vector: Vec<u64>,
) -> (record: Result<VectorRecord, StoreError>)
    ensures
        match written {
            Ok(text) => record matches Ok(r) && r@ == (RecordModel {
                id: id@,
                text: doc.page_content@,
                metadata: text@,
                embedding: vector@,
            }),
            Err(reason) => record matches Err(StoreError::Encoding(m)) && m@ == reason@,
        },
{
    match written {
        Ok(text) => Ok(
            VectorRecord { id, text: doc.page_content.clone(), metadata: text, embedding: vector },
        ),
        Err(reason) => Err(StoreError::Encoding(reason)),
    }
}

/// The row for a document: a fresh identifier, the text, the metadata written
/// as JSON text, and the vector.
pub fn encode_document(doc: &Document, vector: Vec<u64>) -> (record: Result<
    VectorRecord,
    StoreError,
>)
    ensures
        match metadata_text(doc.metadata) {
            Some(text) => record matches Ok(r) && is_record_id(r.id@) && r.text@
                == doc.page_content@ && r.metadata@ == text && r.embedding@ == vector@,
            None => record matches Err(e) && e.kind() == ErrorKind::Encoding,
        },
{
    let written = described(write_metadata(&doc.metadata));
    record_for(doc, random_id(), written, vector)
}

/// The document that a returned row stands for, if its metadata can be read.
pub open spec fn decoded(row: RowModel) -> Option<DocumentModel> {
    match text_metadata(row.metadata) {
        Some(metadata) => Some(
            DocumentModel { page_content: row.text, metadata, score_bits: row.distance_bits },
        ),
        None => None,
    }
}

/// The document for a returned row, given its metadata as read from the row
/// (or why it could not be read). The distance becomes the score as it is.
pub fn row_document(row: &ResultRow, read: Result<Metadata, String>) -> (document: Result<
    Document,
    StoreError,
>)
    ensures
        match read {
            Ok(metadata) => document matches Ok(d) && d@ == (DocumentModel {
                page_content: row.text@,
                metadata,
                score_bits: row.distance_bits,
            }),
            Err(reason) => document matches Err(StoreError::Encoding(m)) && m@ == reason@,
        },
{
    match read {
        Ok(metadata) => Ok(
            Document { page_content: row.text.clone(), metadata, score_bits: row.distance_bits },
        ),
        Err(reason) => Err(StoreError::Encoding(reason)),
    }
}

/// Decodes one returned row. Metadata that is not the text of a JSON object
/// fails the call.
pub fn decode_row(row: &ResultRow) -> (document: Result<Document, StoreError>)
    ensures
        match decoded(row@) {
            Some(model) => document matches Ok(d) && d@ == model,
            None => document matches Err(e) && e.kind() == ErrorKind::Encoding,
        },
{
    let read = described(read_metadata(row.metadata.as_str()));
    row_document(row, read)
}

/// The rows that count towards a result of at most `limit` documents: the
/// first `limit` of them, or all where there are fewer.
pub open spec fn kept_rows(rows: Seq<RowModel>, limit: int) -> Seq<RowModel> {
    if limit < rows.len() {
        rows.take(limit)
    } else {
        rows
    }
}

/// Whether the metadata of every row can be read.
pub open spec fn all_decodable(rows: Seq<RowModel>) -> bool {
    forall|i: int| 0 <= i < rows.len() ==> decoded(#[trigger] rows[i]) is Some
}

/// The documents that the rows stand for, in the order of the rows.
pub open spec fn decoded_rows(rows: Seq<RowModel>) -> Seq<DocumentModel> {
    Seq::new(rows.len(), |i: int| decoded(rows[i])->Some_0)
}

/// Decodes the first `limit` rows, in their order. Rows past the limit are not
/// looked at.
pub fn decode_rows(rows: &Vec<ResultRow>, limit: usize) -> (documents: Result<
    Vec<Document>,
    StoreError,
>)
    ensures
        all_decodable(kept_rows(rows_of(rows@), limit as int)) ==> (documents matches Ok(docs)
            && documents_of(docs@) == decoded_rows(kept_rows(rows_of(rows@), limit as int))),
        !all_decodable(kept_rows(rows_of(rows@), limit as int)) ==> (documents matches Err(e)
            && e.kind() == ErrorKind::Encoding),
{
    let ghost kept = kept_rows(rows_of(rows@), limit as int);
    let n = if limit < rows.len() {
        limit
    } else {
        rows.len()
    };
    let mut docs: Vec<Document> = Vec::new();
    let mut i: usize = 0;
    while i < n
        invariant
            i <= n,
            n == kept.len(),
            n <= rows@.len(),
            kept == kept_rows(rows_of(rows@), limit as int),
            docs@.len() == i,
            forall|j: int| 0 <= j < i ==> decoded(#[trigger] kept[j]) == Some(docs@[j]@),
        decreases n - i,
    {
        assert(kept[i as int] == rows@[i as int]@);
        match decode_row(&rows[i]) {
            Ok(document) => {
                docs.push(document);
            },
            Err(error) => {
                return Err(error);
            },
        }
        i = i + 1;
    }
    proof {
        assert(documents_of(docs@) =~= decoded_rows(kept));
    }
    Ok(docs)
}

} // verus!
