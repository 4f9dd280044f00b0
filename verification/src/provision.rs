//! The schema provisioner: the table's fixed schema, and the steps that make
//! sure that the table and its vector index exist before anything is written.
//!
//! The engine is the caller's to call. Each step is given what the engine
//! answered to the step before and says what follows.

use vstd::prelude::*;
use crate::error::ErrorKind;
use crate::error::StoreError;
use crate::store::Store;
use crate::store::StoreModel;

verus! {

/// The column of identifiers.
pub const ID_COLUMN: &'static str = "id";

/// The column of texts.
pub const TEXT_COLUMN: &'static str = "text";

/// The column of metadata, as JSON text.
pub const METADATA_COLUMN: &'static str = "metadata";

/// The column of embedding vectors, on which the index is built.
pub const EMBEDDING_COLUMN: &'static str = "embedding";

/// The column in which the engine reports the distance of a returned row.
pub const DISTANCE_COLUMN: &'static str = "_distance";

/// What a column holds.
#[derive(Clone, Copy, Debug, PartialEq, Eq, Structural)]
pub enum ColumnKind {
    /// Strings.
    Text,
    /// Lists of double-precision numbers, each list of the given length.
    Vector(i32),
}

/// One column of the table. No column of the table admits nulls.
#[derive(Clone, Debug, PartialEq, Eq)]
pub struct Column {
    pub name: String,
    pub kind: ColumnKind,
    pub nullable: bool,
}

/// A column, as contracts see it.
pub struct ColumnModel {
    pub name: Seq<char>,
    pub kind: ColumnKind,
    pub nullable: bool,
}

impl View for Column {
    type V = ColumnModel;

    open spec fn view(&self) -> ColumnModel {
        ColumnModel { name: self.name@, kind: self.kind, nullable: self.nullable }
    }
}

/// The views of a sequence of columns.
pub open spec fn columns_model(columns: Seq<Column>) -> Seq<ColumnModel> {
    Seq::new(columns.len(), |i: int| columns[i]@)
}

/// The schema of the table for vectors of the given length: identifier, text
/// and metadata as strings, then the embedding.
pub open spec fn table_columns(vector_dimensions: i32) -> Seq<ColumnModel> {
    seq![
        ColumnModel { name: ID_COLUMN@, kind: ColumnKind::Text, nullable: false },
        ColumnModel { name: TEXT_COLUMN@, kind: ColumnKind::Text, nullable: false },
        ColumnModel { name: METADATA_COLUMN@, kind: ColumnKind::Text, nullable: false },
        ColumnModel {
            name: EMBEDDING_COLUMN@,
            kind: ColumnKind::Vector(vector_dimensions),
            nullable: false,
        },
    ]
}

/// The schema of the table for vectors of the given length.
pub fn table_schema(vector_dimensions: i32) -> (columns: Vec<Column>)
    ensures
        columns_model(columns@) == table_columns(vector_dimensions),
{
    let mut columns: Vec<Column> = Vec::new();
    columns.push(Column { name: ID_COLUMN.to_owned(), kind: ColumnKind::Text, nullable: false });
    columns.push(Column { name: TEXT_COLUMN.to_owned(), kind: ColumnKind::Text, nullable: false });
    columns.push(
        Column { name: METADATA_COLUMN.to_owned(), kind: ColumnKind::Text, nullable: false },
    );
    columns.push(
        Column {
            name: EMBEDDING_COLUMN.to_owned(),
            kind: ColumnKind::Vector(vector_dimensions),
            nullable: false,
        },
    );
    proof {
        assert(columns_model(columns@) =~= table_columns(vector_dimensions));
    }
    columns
}

/// A request to create a table.
#[derive(Clone, Debug, PartialEq, Eq)]
pub struct TableRequest {
    pub table: String,
    pub columns: Vec<Column>,
}

/// A request to create a table, as contracts see it.
pub struct TableRequestModel {
    pub table: Seq<char>,
    pub columns: Seq<ColumnModel>,
}

impl View for TableRequest {
    type V = TableRequestModel;

    open spec fn view(&self) -> TableRequestModel {
        TableRequestModel { table: self.table@, columns: columns_model(self.columns@) }
    }
}

/// The kind of a vector index.
#[derive(Clone, Copy, Debug, PartialEq, Eq, Structural)]
pub enum IndexKind {
    /// Whatever kind the engine chooses for the column.
    Auto,
}

/// A request to build a vector index on a column of a table.
#[derive(Clone, Debug, PartialEq, Eq)]
pub struct IndexRequest {
    pub table: String,
    pub column: String,
    pub kind: IndexKind,
}

/// A request to build an index, as contracts see it.
pub struct IndexRequestModel {
    pub table: Seq<char>,
    pub column: Seq<char>,
    pub kind: IndexKind,
}

impl View for IndexRequest {
    type V = IndexRequestModel;

    open spec fn view(&self) -> IndexRequestModel {
        IndexRequestModel { table: self.table@, column: self.column@, kind: self.kind }
    }
}

/// What the engine answered to a request to create a table.
#[derive(Clone, Debug, PartialEq, Eq)]
pub enum CreateOutcome {
    /// The table was created.
    Created,
    /// A table of that name exists already.
    AlreadyExists,
    /// The engine failed for the reason given.
    Failed(String),
}

/// What is left to do once the engine has answered.
#[derive(Clone, Debug, PartialEq, Eq)]
pub enum Provisioned {
    /// The table is new: its index is to be built.
    IndexNeeded(IndexRequest),
    /// The named table was there already and is left as it is; the caller may
    /// tell the user so.
    AlreadyPresent(String),
}

/// What is left to do, as contracts see it.
pub enum ProvisionedModel {
    IndexNeeded(IndexRequestModel),
    AlreadyPresent(Seq<char>),
}

impl View for Provisioned {
    type V = ProvisionedModel;

    open spec fn view(&self) -> ProvisionedModel {
        match *self {
            Provisioned::IndexNeeded(request) => ProvisionedModel::IndexNeeded(request@),
            Provisioned::AlreadyPresent(table) => ProvisionedModel::AlreadyPresent(table@),
        }
    }
}

/// The first step of provisioning: the table to ask the engine for, unless the
/// vector length is not positive.
pub open spec fn first_request<C, E>(store: StoreModel<C, E>) -> Result<
    TableRequestModel,
    ErrorKind,
> {
    if store.vector_dimensions <= 0 {
        Err(ErrorKind::Configuration)
    } else {
        Ok(
            TableRequestModel {
                table: store.table,
                columns: table_columns(store.vector_dimensions),
            },
        )
    }
}

/// The step after the engine's answer: a new table gets its index, a table
/// that exists is left alone, and any other answer is a failure.
pub open spec fn after_create<C, E>(store: StoreModel<C, E>, outcome: CreateOutcome) -> Result<
    ProvisionedModel,
    ErrorKind,
> {
    match outcome {
        CreateOutcome::Created => Ok(
            ProvisionedModel::IndexNeeded(
                IndexRequestModel {
                    table: store.table,
                    column: EMBEDDING_COLUMN@,
                    kind: IndexKind::Auto,
                },
            ),
        ),
        CreateOutcome::AlreadyExists => Ok(ProvisionedModel::AlreadyPresent(store.table)),
        CreateOutcome::Failed(_) => Err(ErrorKind::Schema),
    }
}

/// Whether the name is among the names.
pub open spec fn lists(names: Seq<Seq<char>>, name: Seq<char>) -> bool {
    exists|i: int| 0 <= i < names.len() && names[i] == name
}

impl<C, E> Store<C, E> {
    /// Begins provisioning: the request that creates the table with the fixed
    /// schema. A store whose vector length is not positive cannot be
    /// provisioned.
    pub fn initialize(&self) -> (request: Result<TableRequest, StoreError>)
        ensures
            match first_request(self@) {
                Ok(model) => request matches Ok(r) && r@ == model,
                Err(kind) => request matches Err(e) && e.kind() == kind,
            },
    {
        let vector_dimensions = self.vector_dimensions();
        if vector_dimensions <= 0 {
            return Err(
                StoreError::Configuration("The vector dimensions must be positive".to_owned()),
            );
        }
        Ok(TableRequest { table: self.table().clone(), columns: table_schema(vector_dimensions) })
    }

    /// Goes on after the engine has answered the request to create the table.
    /// That the table exists already is no failure; the failure of the engine
    /// is handed on with its reason.
    pub fn create_table_if_not_exists(&self, outcome: CreateOutcome) -> (step: Result<
        Provisioned,
        StoreError,
    >)
        ensures
            match after_create(self@, outcome) {
                Ok(model) => step matches Ok(s) && s@ == model,
                Err(kind) => step matches Err(e) && e.kind() == kind,
            },
            outcome matches CreateOutcome::Failed(reason) ==> step matches Err(e) && e.spec_message()
                == reason@,
    {
        match outcome {
            CreateOutcome::Created => Ok(
                Provisioned::IndexNeeded(
                    IndexRequest {
                        table: self.table().clone(),
                        column: EMBEDDING_COLUMN.to_owned(),
                        kind: IndexKind::Auto,
                    },
                ),
            ),
            CreateOutcome::AlreadyExists => Ok(Provisioned::AlreadyPresent(self.table().clone())),
            CreateOutcome::Failed(reason) => Err(StoreError::Schema(reason)),
        }
    }

    /// Ends provisioning, given what the engine answered to the request to
    /// build the index.
    pub fn index_built(&self, outcome: Result<(), String>) -> (done: Result<(), StoreError>)
        ensures
            match outcome {
                Ok(_) => done is Ok,
                Err(reason) => done matches Err(StoreError::Schema(m)) && m@ == reason@,
            },
    {
        match outcome {
            Ok(_) => Ok(()),
            Err(reason) => Err(StoreError::Schema(reason)),
        }
    }

    /// Decides whether the table is to be dropped, given the names of the
    /// tables that the engine has: only a table that is there is dropped.
    pub fn drop_table(&self, tables: &Vec<String>) -> (drop: Option<String>)
        ensures
            match drop {
                Some(table) => table@ == self@.table && lists(
                    crate::columns::texts_of(tables@),
                    self@.table,
                ),
                None => !lists(crate::columns::texts_of(tables@), self@.table),
            },
    {
        let mut i: usize = 0;
        while i < tables.len()
            invariant
                i <= tables.len(),
                forall|j: int| 0 <= j < i ==> tables@[j]@ != self@.table,
            decreases tables.len() - i,
        {
            if tables[i] == *self.table() {
                assert(crate::columns::texts_of(tables@)[i as int] == self@.table);
                return Some(self.table().clone());
            }
            i = i + 1;
        }
        None
    }

    /// Ends the removal of the table, given what the engine answered.
    pub fn table_dropped(&self, outcome: Result<(), String>) -> (done: Result<(), StoreError>)
        ensures
            match outcome {
                Ok(_) => done is Ok,
                Err(reason) => done matches Err(StoreError::Engine(m)) && m@ == reason@,
            },
    {
        match outcome {
            Ok(_) => Ok(()),
            Err(reason) => Err(StoreError::Engine(reason)),
        }
    }
}

/// A table of an engine, as far as provisioning is concerned: its columns, and
/// the columns on which a vector index was built, one entry for each index.
pub struct TableModel {
    pub columns: Seq<ColumnModel>,
    pub indexes: Seq<Seq<char>>,
}

/// An engine that never fails for want of access or connection: asked to
/// create a table, it creates it unless the name is taken.
pub open spec fn engine_create(
    tables: Map<Seq<char>, TableModel>,
    request: TableRequestModel,
) -> (Map<Seq<char>, TableModel>, CreateOutcome) {
    if tables.contains_key(request.table) {
        (tables, CreateOutcome::AlreadyExists)
    } else {
        (
            tables.insert(
                request.table,
                TableModel { columns: request.columns, indexes: Seq::empty() },
            ),
            CreateOutcome::Created,
        )
    }
}

/// Such an engine builds an index on a table that it has.
pub open spec fn engine_index(
    tables: Map<Seq<char>, TableModel>,
    request: IndexRequestModel,
) -> Map<Seq<char>, TableModel> {
    if tables.contains_key(request.table) {
        let table = tables[request.table];
        tables.insert(
            request.table,
            TableModel { columns: table.columns, indexes: table.indexes.push(request.column) },
        )
    } else {
        tables
    }
}

/// One run of the provisioning steps against such an engine: the tables that
/// the engine has afterwards, and whether the run failed.
pub open spec fn provision_run<C, E>(
    store: StoreModel<C, E>,
    tables: Map<Seq<char>, TableModel>,
) -> (Map<Seq<char>, TableModel>, Option<ErrorKind>) {
    match first_request(store) {
        Err(kind) => (tables, Some(kind)),
        Ok(request) => {
            let (created, outcome) = engine_create(tables, request);
            match after_create(store, outcome) {
                Err(kind) => (created, Some(kind)),
                Ok(ProvisionedModel::AlreadyPresent(_)) => (created, None),
                Ok(ProvisionedModel::IndexNeeded(index)) => (engine_index(created, index), None),
            }
        },
    }
}

/// Provisioning is idempotent. On an engine that does not have the table yet,
/// two runs in a row both succeed; after them the engine has, besides the
/// tables that it had, exactly this table, with the fixed schema and one
/// index, on the embedding column. The second run changes nothing.
pub proof fn lemma_provision_twice<C, E>(store: StoreModel<C, E>, tables: Map<Seq<char>, TableModel>)
    requires
        store.vector_dimensions > 0,
        !tables.contains_key(store.table),
    ensures
        ({
            let (once, first) = provision_run(store, tables);
            let (twice, second) = provision_run(store, once);
            &&& first is None
            &&& second is None
            &&& twice == once
            &&& once.dom() == tables.dom().insert(store.table)
            &&& once[store.table] == (TableModel {
                columns: table_columns(store.vector_dimensions),
                indexes: seq![EMBEDDING_COLUMN@],
            })
            &&& forall|name: Seq<char>|
                tables.contains_key(name) ==> once[name] == #[trigger] tables[name]
        }),
{
    let (once, first) = provision_run(store, tables);
    assert(once.dom() =~= tables.dom().insert(store.table));
    assert(once[store.table].indexes =~= seq![EMBEDDING_COLUMN@]);
}

/// A run of provisioning on an engine that has the table already succeeds and
/// leaves every table as it is.
pub proof fn lemma_provision_present<C, E>(
    store: StoreModel<C, E>,
    tables: Map<Seq<char>, TableModel>,
)
    requires
        store.vector_dimensions > 0,
        tables.contains_key(store.table),
    ensures
        provision_run(store, tables) == (tables, None::<ErrorKind>),
{
}

} // verus!
