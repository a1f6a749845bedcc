use std::collections::HashMap;
use std::path::Path;
use std::sync::Arc;

use deltalake::action::Protocol;
use deltalake::arrow::array::{
    Array, ArrayRef, Float64Array, Int32Array, TimestampMicrosecondArray,
};
use deltalake::arrow::record_batch::RecordBatch;
use deltalake::writer::{DeltaWriter, RecordBatchWriter};
use deltalake::{DeltaTable, DeltaTableBuilder, DeltaTableMetaData, SchemaDataType};
use weather_ingest::batch::{convert_to_batch, Column, ColumnarBatch};
use weather_ingest::bootstrap::{plan_bootstrap, table_marker, Bootstrap, TableDefinition};
use weather_ingest::clock::Timestamp;
use weather_ingest::pipeline::{report_conversion, Action, Event, Stage};
use weather_ingest::record::{fetch_readings, WeatherRecord};
use weather_ingest::schema::{PrimitiveType, Schema, SchemaField};

fn fresh_location(label: &str) -> String {
    format!("/tmp/weather_ingest_{}_{}", label, Timestamp::now().timestamp_micros())
}

fn marker_present(location: &str) -> bool {
    Path::new(location).join(table_marker()).is_dir()
}

fn engine_schema(schema: &Schema) -> deltalake::Schema {
    deltalake::Schema::new(
        schema
            .get_fields()
            .iter()
            .map(|field| {
                deltalake::SchemaField::new(
                    field.name.clone(),
                    SchemaDataType::primitive(field.data_type.name().to_string()),
                    field.nullable,
                    HashMap::new(),
                )
            })
            .collect(),
    )
}

fn library_schema(schema: &deltalake::Schema) -> Schema {
    let fields = schema
        .get_fields()
        .iter()
        .map(|field| {
            let data_type = match field.get_type() {
                SchemaDataType::primitive(tag) => PrimitiveType::from_name(tag).unwrap(),
                other => panic!("unexpected field type {:?}", other),
            };
            SchemaField::new(
                field.get_name().to_string(),
                data_type,
                field.is_nullable(),
                Vec::new(),
            )
        })
        .collect();
    Schema::new(fields).unwrap()
}

fn arrow_batch(writer: &RecordBatchWriter, batch: &ColumnarBatch) -> RecordBatch {
    let mut arrays: Vec<ArrayRef> = Vec::new();
    for index in 0..batch.num_columns() {
        let array: ArrayRef = match batch.column(index).unwrap() {
            Column::Timestamp(micros) => Arc::new(TimestampMicrosecondArray::from(micros.clone())),
            Column::Integer(values) => Arc::new(Int32Array::from(values.clone())),
            Column::Double(bits) => Arc::new(Float64Array::from(
                bits.iter().map(|b| f64::from_bits(*b)).collect::<Vec<f64>>(),
            )),
        };
        arrays.push(array);
    }
    RecordBatch::try_new(writer.arrow_schema(), arrays).unwrap()
}

async fn create(location: &str, definition: TableDefinition) -> DeltaTable {
    let mut table = DeltaTableBuilder::from_uri(location).build().unwrap();
    let metadata = DeltaTableMetaData::new(
        definition.name.clone(),
        definition.description.clone(),
        None,
        engine_schema(&definition.schema),
        definition.partition_columns.clone(),
        HashMap::new(),
    );
    let protocol = Protocol {
        min_reader_version: definition.protocol.min_reader_version,
        min_writer_version: definition.protocol.min_writer_version,
    };
    #[allow(deprecated)]
    table.create(metadata, protocol, Some(definition.commit_info), None).await.unwrap();
    table
}

async fn ensure_table(location: &str) -> (DeltaTable, Stage) {
    let located = Stage::start().advance(Event::Configured { location_present: true }).unwrap();
    let present = marker_present(location);
    let probed = located.advance(Event::Probed { marker_present: present }).unwrap();
    match plan_bootstrap(present) {
        Bootstrap::Open => {
            assert_eq!(probed.pending_action(), Action::OpenTable);
            let table = deltalake::open_table(location).await.unwrap();
            (table, probed.advance(Event::TableOpened).unwrap())
        }
        Bootstrap::Create(definition) => {
            assert_eq!(probed.pending_action(), Action::CreateTable);
            let table = create(location, definition).await;
            (table, probed.advance(Event::TableCreated).unwrap())
        }
    }
}

fn field_summary(table: &DeltaTable) -> Vec<(String, String, bool)> {
    table
        .get_schema()
        .unwrap()
        .get_fields()
        .iter()
        .map(|field| {
            let tag = match field.get_type() {
                SchemaDataType::primitive(tag) => tag.clone(),
                other => format!("{:?}", other),
            };
            (field.get_name().to_string(), tag, field.is_nullable())
        })
        .collect()
}

fn weather_summary() -> Vec<(String, String, bool)> {
    vec![
        ("timestamp".to_string(), "timestamp".to_string(), true),
        ("temp".to_string(), "integer".to_string(), true),
        ("lat".to_string(), "double".to_string(), true),
        ("long".to_string(), "double".to_string(), true),
    ]
}

fn runtime() -> tokio::runtime::Runtime {
    tokio::runtime::Builder::new_current_thread().enable_all().build().unwrap()
}

#[test]
fn fresh_location_is_created_then_appended_to() {
    runtime().block_on(async {
        let location = fresh_location("fresh");
        assert!(!marker_present(&location));

        let (mut table, stage) = ensure_table(&location).await;
        assert_eq!(stage, Stage::Bootstrapped);
        assert!(marker_present(&location));
        assert_eq!(table.version(), 0);
        assert_eq!(field_summary(&table), weather_summary());
        assert_eq!(table.get_min_reader_version(), 1);
        assert_eq!(table.get_min_writer_version(), 1);
        assert!(table.get_files().is_empty());

        let mut writer = RecordBatchWriter::for_table(&table).unwrap();
        let records = fetch_readings();
        let registered = library_schema(table.get_schema().unwrap());
        let outcome = convert_to_batch(&registered, &records);
        let stage = stage.advance(report_conversion(&outcome)).unwrap();
        assert_eq!(stage.pending_action(), Action::StageBatch);
        let batch = arrow_batch(&writer, &outcome.unwrap());
        assert_eq!(batch.num_rows(), 5);
        assert_eq!(batch.num_columns(), 4);
        let temps = batch.column(1).as_any().downcast_ref::<Int32Array>().unwrap();
        assert_eq!(temps.values().to_vec(), vec![71, 70, 69, 68, 67]);
        let lats = batch.column(2).as_any().downcast_ref::<Float64Array>().unwrap();
        assert!(lats.values().iter().all(|lat| *lat == 39.61940984546992));
        let stamps = batch.column(0).as_any().downcast_ref::<TimestampMicrosecondArray>().unwrap();
        for (j, record) in records.iter().enumerate() {
            assert_eq!(stamps.value(j), record.timestamp.timestamp_micros());
        }

        writer.write(batch).await.unwrap();
        let stage = stage.advance(Event::BatchStaged).unwrap();
        assert_eq!(stage.pending_action(), Action::FlushAndCommit);
        let version = writer.flush_and_commit(&mut table).await.unwrap();
        assert_eq!(version, 1);
        let files = table.get_files().len();
        assert!(files > 0);
        assert!(table.get_state().all_tombstones().is_empty());
        let stage = stage.advance(Event::Committed { files }).unwrap();
        assert_eq!(stage.pending_action(), Action::Finish { files });
        assert!(stage.is_over());
    });
}

#[test]
fn ensuring_an_existing_table_changes_nothing() {
    runtime().block_on(async {
        let location = fresh_location("twice");
        let (created, first) = ensure_table(&location).await;
        assert_eq!(first, Stage::Bootstrapped);
        let fields = field_summary(&created);

        let (opened, second) = ensure_table(&location).await;
        assert_eq!(second, Stage::Opened);
        assert_eq!(opened.version(), 0);
        assert_eq!(field_summary(&opened), fields);
        assert_eq!(opened.get_min_reader_version(), created.get_min_reader_version());
        assert_eq!(opened.get_min_writer_version(), created.get_min_writer_version());

        let (again, third) = ensure_table(&location).await;
        assert_eq!(third, Stage::Opened);
        assert_eq!(again.version(), 0);
        assert_eq!(field_summary(&again), weather_summary());
    });
}

#[test]
fn table_of_another_shape_refuses_the_readings() {
    runtime().block_on(async {
        let location = fresh_location("other");
        let mut definition = TableDefinition::initial();
        definition.schema = Schema::new(vec![
            SchemaField::new("timestamp".to_string(), PrimitiveType::Timestamp, true, Vec::new()),
            SchemaField::new("temp".to_string(), PrimitiveType::Double, true, Vec::new()),
        ])
        .unwrap();
        let table = create(&location, definition).await;
        let registered = library_schema(table.get_schema().unwrap());
        let outcome = convert_to_batch(&registered, &vec![WeatherRecord::default()]);
        assert!(outcome.is_err());
        let stage = Stage::Opened.advance(report_conversion(&outcome)).unwrap();
        assert!(stage.is_over());
        assert!(table.get_files().is_empty());
        assert_eq!(table.version(), 0);
    });
}
