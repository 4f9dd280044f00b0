use std::collections::BTreeMap;

use serde_json::Value;
use vector_store::codec::RecordColumns;
use vector_store::codec::RowBatch;
use vector_store::columns::TextColumn;
use vector_store::document::page_contents;
use vector_store::document::Document;
use vector_store::error::ErrorKind;
use vector_store::error::StoreError;
use vector_store::json::Metadata;
use vector_store::provision::table_schema;
use vector_store::provision::Column;
use vector_store::provision::ColumnKind;
use vector_store::provision::CreateOutcome;
use vector_store::provision::IndexRequest;
use vector_store::provision::Provisioned;
use vector_store::provision::TableRequest;
use vector_store::query::SearchRequest;
use vector_store::store::Store;

const DIMENSIONS: usize = 8;

struct Row {
    id: String,
    text: String,
    metadata: String,
    embedding: Vec<f64>,
}

struct Table {
    columns: Vec<Column>,
    indexes: Vec<String>,
    rows: Vec<Row>,
}

/// A columnar engine in memory, for the scenarios below.
struct Engine {
    tables: BTreeMap<String, Table>,
    created: usize,
    appended: usize,
}

fn cosine_distance(a: &[f64], b: &[f64]) -> f64 {
    let dot: f64 = a.iter().zip(b).map(|(x, y)| x * y).sum();
    let na: f64 = a.iter().map(|x| x * x).sum::<f64>().sqrt();
    let nb: f64 = b.iter().map(|x| x * x).sum::<f64>().sqrt();
    if na == 0.0 || nb == 0.0 {
        1.0
    } else {
        1.0 - dot / (na * nb)
    }
}

impl Engine {
    fn new() -> Engine {
        Engine { tables: BTreeMap::new(), created: 0, appended: 0 }
    }

    fn create(&mut self, request: &TableRequest) -> CreateOutcome {
        if self.tables.contains_key(&request.table) {
            return CreateOutcome::AlreadyExists;
        }
        self.created += 1;
        self.tables.insert(
            request.table.clone(),
            Table { columns: request.columns.clone(), indexes: Vec::new(), rows: Vec::new() },
        );
        CreateOutcome::Created
    }

    fn index(&mut self, request: &IndexRequest) -> Result<(), String> {
        match self.tables.get_mut(&request.table) {
            Some(table) => {
                table.indexes.push(request.column.clone());
                Ok(())
            }
            None => Err(format!("no table {}", request.table)),
        }
    }

    fn append(&mut self, name: &str, columns: &RecordColumns) -> Result<(), String> {
        let table = match self.tables.get_mut(name) {
            Some(table) => table,
            None => return Err(format!("no table {}", name)),
        };
        let ids = columns.ids.to_texts();
        let texts = columns.texts.to_texts();
        let metadatas = columns.metadatas.to_texts();
        for i in 0..ids.len() {
            let embedding: Vec<f64> =
                columns.embeddings[i].iter().map(|b| f64::from_bits(*b)).collect();
            if table.columns[3].kind != ColumnKind::Vector(embedding.len() as i32) {
                return Err("vector length".to_string());
            }
            table.rows.push(Row {
                id: ids[i].clone(),
                text: texts[i].clone(),
                metadata: metadatas[i].clone(),
                embedding,
            });
        }
        self.appended += 1;
        Ok(())
    }

    fn search(&self, request: &SearchRequest) -> Result<Vec<RowBatch>, String> {
        let table = match self.tables.get(&request.table) {
            Some(table) => table,
            None => return Err(format!("no table {}", request.table)),
        };
        let query: Vec<f64> = request.vector.iter().map(|b| f64::from_bits(*b)).collect();
        let mut found: Vec<(f64, &Row)> =
            table.rows.iter().map(|r| (cosine_distance(&query, &r.embedding), r)).collect();
        found.sort_by(|a, b| a.0.partial_cmp(&b.0).unwrap());
        found.truncate(request.limit);
        let mut batches = Vec::new();
        // two rows to a batch, so that a result spans several batches
        for chunk in found.chunks(2) {
            let texts: Vec<String> = chunk.iter().map(|f| f.1.text.clone()).collect();
            let metadatas: Vec<String> = chunk.iter().map(|f| f.1.metadata.clone()).collect();
            batches.push(RowBatch {
                texts: TextColumn::from_texts(&texts).unwrap(),
                metadatas: TextColumn::from_texts(&metadatas).unwrap(),
                distances: chunk.iter().map(|f| f.0.to_bits()).collect(),
            });
        }
        Ok(batches)
    }

    fn names(&self) -> Vec<String> {
        self.tables.keys().cloned().collect()
    }

    fn drop(&mut self, name: &str) -> Result<(), String> {
        match self.tables.remove(name) {
            Some(_) => Ok(()),
            None => Err(format!("no table {}", name)),
        }
    }
}

/// A stand-in for an embedding model: counts letters into eight buckets.
fn embed(text: &str) -> Vec<u64> {
    let mut vector = vec![0.0f64; DIMENSIONS];
    for c in text.to_lowercase().chars() {
        if c.is_ascii_alphabetic() {
            vector[(c as usize - 'a' as usize) % DIMENSIONS] += 1.0;
        }
    }
    vector.iter().map(|v| v.to_bits()).collect()
}

fn store(table: &str) -> Store<(), ()> {
    Store::new((), table.to_string(), DIMENSIONS as i32, ())
}

fn initialize(store: &Store<(), ()>, engine: &mut Engine) -> Result<(), StoreError> {
    let request = store.initialize()?;
    let outcome = engine.create(&request);
    match store.create_table_if_not_exists(outcome)? {
        Provisioned::IndexNeeded(index) => store.index_built(engine.index(&index)),
        Provisioned::AlreadyPresent(_) => Ok(()),
    }
}

fn add_documents(
    store: &Store<(), ()>,
    engine: &mut Engine,
    docs: &Vec<Document>,
) -> Result<Vec<String>, StoreError> {
    let vectors: Vec<Vec<u64>> = page_contents(docs).iter().map(|t| embed(t)).collect();
    let ingestion = store.add_documents(docs, Ok(vectors))?;
    let outcome = engine.append(store.table(), &ingestion.columns);
    store.appended(ingestion.ids, outcome)
}

fn similarity_search(
    store: &Store<(), ()>,
    engine: &Engine,
    query: &str,
    limit: usize,
) -> Result<Vec<Document>, StoreError> {
    let request = store.search_request(Ok(embed(query)), limit)?;
    store.similarity_search(limit, engine.search(&request))
}

fn drop_table(store: &Store<(), ()>, engine: &mut Engine) -> Result<(), StoreError> {
    match store.drop_table(&engine.names()) {
        Some(table) => store.table_dropped(engine.drop(&table)),
        None => Ok(()),
    }
}

fn document(text: &str) -> Document {
    Document { page_content: text.to_string(), metadata: Metadata::new(), score_bits: 0 }
}

#[test]
fn initialize_twice_makes_one_table_with_one_index() {
    let s = store("documents");
    let mut engine = Engine::new();
    assert_eq!(initialize(&s, &mut engine), Ok(()));
    assert_eq!(initialize(&s, &mut engine), Ok(()));
    assert_eq!(engine.created, 1);
    assert_eq!(engine.names(), vec!["documents".to_string()]);
    let table = &engine.tables["documents"];
    assert_eq!(table.columns, table_schema(DIMENSIONS as i32));
    assert_eq!(table.indexes, vec!["embedding".to_string()]);
}

#[test]
fn initialize_leaves_a_table_that_exists_as_it_is() {
    let s = store("documents");
    let mut engine = Engine::new();
    initialize(&s, &mut engine).unwrap();
    add_documents(&s, &mut engine, &vec![document("kept")]).unwrap();
    assert_eq!(initialize(&s, &mut engine), Ok(()));
    assert_eq!(engine.tables["documents"].rows.len(), 1);
    assert_eq!(engine.tables["documents"].indexes.len(), 1);
}

#[test]
fn content_and_metadata_come_back() {
    let s = store("documents");
    let mut engine = Engine::new();
    initialize(&s, &mut engine).unwrap();
    let mut metadata = Metadata::new();
    metadata.insert("topic".to_string(), Value::String("geography".to_string()));
    let doc = Document {
        page_content: "Paris is the capital of France.".to_string(),
        metadata: metadata.clone(),
        score_bits: 0,
    };
    add_documents(&s, &mut engine, &vec![doc]).unwrap();
    let found = similarity_search(&s, &engine, "capital of France", 1).unwrap();
    assert_eq!(found.len(), 1);
    assert_eq!(found[0].page_content, "Paris is the capital of France.");
    assert_eq!(found[0].metadata, metadata);
}

#[test]
fn add_documents_returns_the_identifiers_of_the_stored_rows() {
    let s = store("documents");
    let mut engine = Engine::new();
    initialize(&s, &mut engine).unwrap();
    let docs = vec![document("alpha"), document("beta"), document("gamma")];
    let ids = add_documents(&s, &mut engine, &docs).unwrap();
    assert_eq!(ids.len(), 3);
    let rows = &engine.tables["documents"].rows;
    assert_eq!(rows.len(), 3);
    for i in 0..3 {
        assert!(!ids[i].is_empty());
        assert_eq!(rows[i].id, ids[i]);
        assert_eq!(rows[i].text, docs[i].page_content);
        assert_eq!(rows[i].metadata, "{}");
    }
    assert_ne!(ids[0], ids[1]);
    assert_ne!(ids[0], ids[2]);
    assert_ne!(ids[1], ids[2]);
    assert_eq!(engine.appended, 1);
}

#[test]
fn a_count_mismatch_writes_nothing() {
    let s = store("documents");
    let mut engine = Engine::new();
    initialize(&s, &mut engine).unwrap();
    let docs = vec![document("alpha"), document("beta")];
    let ingestion = s.add_documents(&docs, Ok(vec![embed("alpha")]));
    match ingestion {
        Err(error) => assert_eq!(error.kind(), ErrorKind::DimensionMismatch),
        Ok(_) => panic!("a batch was made from one vector for two documents"),
    }
    assert_eq!(engine.appended, 0);
    assert!(engine.tables["documents"].rows.is_empty());
}

#[test]
fn a_search_on_a_table_without_rows_finds_nothing() {
    let s = store("documents");
    let mut engine = Engine::new();
    initialize(&s, &mut engine).unwrap();
    assert_eq!(similarity_search(&s, &engine, "anything", 1), Ok(Vec::new()));
    assert_eq!(similarity_search(&s, &engine, "capital of France", 10), Ok(Vec::new()));
}

#[test]
fn the_limit_is_respected() {
    let s = store("documents");
    let mut engine = Engine::new();
    initialize(&s, &mut engine).unwrap();
    let docs: Vec<Document> =
        (0..10).map(|i| document(&format!("document number {} {}", i, "x".repeat(i)))).collect();
    add_documents(&s, &mut engine, &docs).unwrap();
    let found = similarity_search(&s, &engine, "document", 3).unwrap();
    assert!(found.len() <= 3);
    assert_eq!(found.len(), 3);
    assert_eq!(similarity_search(&s, &engine, "document", 10).unwrap().len(), 10);
    assert_eq!(similarity_search(&s, &engine, "document", 25).unwrap().len(), 10);
    assert!(similarity_search(&s, &engine, "document", 0).unwrap().is_empty());
}

#[test]
fn the_nearest_document_comes_first_with_its_distance() {
    let s = store("documents");
    let mut engine = Engine::new();
    initialize(&s, &mut engine).unwrap();
    let docs = vec![document("zzzz zzzz"), document("abc abc"), document("abc xyz")];
    add_documents(&s, &mut engine, &docs).unwrap();
    let found = similarity_search(&s, &engine, "abc", 3).unwrap();
    assert_eq!(found[0].page_content, "abc abc");
    let scores: Vec<f64> = found.iter().map(|d| f64::from_bits(d.score_bits)).collect();
    assert!(scores[0].abs() < 1e-12);
    assert!(scores[0] <= scores[1] && scores[1] <= scores[2]);
}

#[test]
fn drop_table_removes_a_table_that_is_there() {
    let s = store("documents");
    let mut engine = Engine::new();
    initialize(&s, &mut engine).unwrap();
    initialize(&store("other"), &mut engine).unwrap();
    assert_eq!(drop_table(&s, &mut engine), Ok(()));
    assert_eq!(engine.names(), vec!["other".to_string()]);
}

#[test]
fn drop_table_leaves_the_engine_alone_when_the_table_is_absent() {
    let s = store("documents");
    let mut engine = Engine::new();
    initialize(&store("other"), &mut engine).unwrap();
    assert_eq!(drop_table(&s, &mut engine), Ok(()));
    assert_eq!(engine.names(), vec!["other".to_string()]);
}
