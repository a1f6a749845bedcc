//! Bootstrapping a table: whether a location already holds one, and what a
//! fresh one is created with.

use crate::commit_info::{creation_commit_info, creation_entries, json_entries, JsonObject};
use crate::record::{weather_fields, WeatherRecord};
use crate::schema::{FieldView, Schema};
use vstd::prelude::*;

verus! {

/// Lowest reader version a table created here asks for.
pub const MIN_READER_VERSION: i32 = 1;

/// Lowest writer version a table created here asks for.
pub const MIN_WRITER_VERSION: i32 = 1;

/// The capabilities a reader and a writer need at least to use a table.
#[derive(Clone, Copy, Debug, PartialEq, Eq, Structural)]
pub struct Protocol {
    pub min_reader_version: i32,
    pub min_writer_version: i32,
}

/// The protocol of every table created here.
pub open spec fn initial_protocol() -> Protocol {
    Protocol { min_reader_version: MIN_READER_VERSION, min_writer_version: MIN_WRITER_VERSION }
}

/// Mathematical value of a [`TableDefinition`].
pub struct DefinitionView {
    pub name: Option<Seq<char>>,
    pub description: Option<Seq<char>>,
    pub schema: Seq<FieldView>,
    pub partition_columns: Seq<Seq<char>>,
    pub protocol: Protocol,
    pub commit_info: Map<Seq<char>, Option<Seq<char>>>,
}

/// All that the creation of a table hands to the table engine.
pub struct TableDefinition {
    pub name: Option<String>,
    pub description: Option<String>,
    pub schema: Schema,
    pub partition_columns: Vec<String>,
    pub protocol: Protocol,
    pub commit_info: JsonObject,
}

/// The text of an optional string.
pub open spec fn text_of(text: Option<String>) -> Option<Seq<char>> {
    match text {
        Some(s) => Some(s@),
        None => None,
    }
}

/// The texts of a list of strings, in the same order.
pub open spec fn texts_of(texts: Seq<String>) -> Seq<Seq<char>> {
    Seq::new(texts.len(), |i: int| texts[i]@)
}

impl View for TableDefinition {
    type V = DefinitionView;

    open spec fn view(&self) -> DefinitionView {
        DefinitionView {
            name: text_of(self.name),
            description: text_of(self.description),
            schema: self.schema@,
            partition_columns: texts_of(self.partition_columns@),
            protocol: self.protocol,
            commit_info: json_entries(self.commit_info),
        }
    }
}

/// What a fresh table is created with: no name and no description, the
/// weather schema, no partitioning, reader and writer version 1, and the
/// commit information of a creation.
pub open spec fn initial_definition() -> DefinitionView {
    DefinitionView {
        name: None,
        description: None,
        schema: weather_fields(),
        partition_columns: Seq::empty(),
        protocol: initial_protocol(),
        commit_info: creation_entries(),
    }
}

impl TableDefinition {
    /// The definition of a fresh table of weather readings.
    pub fn initial() -> (definition: TableDefinition)
        ensures
            definition@ == initial_definition(),
    {
        let definition = TableDefinition {
            name: None,
            description: None,
            schema: WeatherRecord::schema(),
            partition_columns: Vec::new(),
            protocol: Protocol {
                min_reader_version: MIN_READER_VERSION,
                min_writer_version: MIN_WRITER_VERSION,
            },
            commit_info: creation_commit_info(),
        };
        assert(texts_of(definition.partition_columns@) =~= Seq::empty());
        definition
    }
}

/// The directory whose presence marks a location as holding a table.
pub fn table_marker() -> (marker: &'static str)
    ensures
        marker@ == "_delta_log"@,
{
    "_delta_log"
}

/// What to do at a location before data can be appended.
pub enum Bootstrap {
    /// A table is there: open it as it is.
    Open,
    /// No table is there: create one with this definition.
    Create(TableDefinition),
}

/// Mathematical value of a [`Bootstrap`].
pub enum Plan {
    Open,
    Create(DefinitionView),
}

impl View for Bootstrap {
    type V = Plan;

    open spec fn view(&self) -> Plan {
        match self {
            Bootstrap::Open => Plan::Open,
            Bootstrap::Create(definition) => Plan::Create(definition@),
        }
    }
}

/// A location that shows the marker is opened; any other gets a fresh table.
pub open spec fn bootstrap_plan(marker_present: bool) -> Plan {
    if marker_present {
        Plan::Open
    } else {
        Plan::Create(initial_definition())
    }
}

/// Decides what to do at a location, given whether the marker was found there.
pub fn plan_bootstrap(marker_present: bool) -> (plan: Bootstrap)
    ensures
        plan@ == bootstrap_plan(marker_present),
{
    if marker_present {
        Bootstrap::Open
    } else {
        Bootstrap::Create(TableDefinition::initial())
    }
}

/// What is known of the table at a location.
pub struct TableModel {
    /// Whether a table has been created there; the marker shows exactly this.
    pub initialized: bool,
    pub schema: Seq<FieldView>,
    pub protocol: Protocol,
    /// How many creations the location has seen.
    pub creations: nat,
}

/// The table after a plan has been carried out: opening leaves it as it is,
/// creating records one creation with the schema and protocol of the definition.
pub open spec fn carry_out(table: TableModel, plan: Plan) -> TableModel {
    match plan {
        Plan::Open => table,
        Plan::Create(definition) => TableModel {
            initialized: true,
            schema: definition.schema,
            protocol: definition.protocol,
            creations: table.creations + 1,
        },
    }
}

/// The table after it has been ensured: the plan for its location, carried out.
pub open spec fn ensured(table: TableModel) -> TableModel {
    carry_out(table, bootstrap_plan(table.initialized))
}

/// Ensuring a table leaves it initialized; a location without a table gets the
/// weather schema and protocol versions 1 and 1 in a single creation.
pub proof fn lemma_ensure_initializes(table: TableModel)
    ensures
        ensured(table).initialized,
        !table.initialized ==> {
            &&& ensured(table).schema == weather_fields()
            &&& ensured(table).protocol == initial_protocol()
            &&& ensured(table).creations == table.creations + 1
        },
{
}

/// Ensuring a table that is already initialized changes nothing: schema and
/// protocol stay, and no further creation is recorded. So ensuring twice is
/// the same as ensuring once.
pub proof fn lemma_ensure_idempotent(table: TableModel)
    ensures
        table.initialized ==> ensured(table) == table,
        ensured(ensured(table)) == ensured(table),
{
}

} // verus!
