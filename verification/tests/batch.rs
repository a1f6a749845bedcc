use weather_ingest::batch::{convert_to_batch, BatchError, Column, ColumnarBatch};
use weather_ingest::clock::Timestamp;
use weather_ingest::record::{fetch_readings, Cell, WeatherRecord};
use weather_ingest::schema::{PrimitiveType, Schema, SchemaField};

fn sample_records() -> Vec<WeatherRecord> {
    let mut records = Vec::new();
    for k in 0..3u32 {
        let at = Timestamp::new(1_700_000_000 + k as i64, 1_500 * (k + 1)).unwrap();
        let mut record = WeatherRecord::observed_at(at);
        record.temp = 60 + k as i32;
        record.lat = (10.5f64 + k as f64).to_bits();
        record.long = (-20.25f64 - k as f64).to_bits();
        records.push(record);
    }
    records
}

fn field(name: &str, data_type: PrimitiveType) -> SchemaField {
    SchemaField::new(name.to_string(), data_type, true, Vec::new())
}

#[test]
fn conversion_keeps_rows_aligned() {
    let records = sample_records();
    let batch = convert_to_batch(&WeatherRecord::schema(), &records).unwrap();
    assert_eq!(batch.num_rows(), 3);
    assert_eq!(batch.num_columns(), 4);
    for (j, record) in records.iter().enumerate() {
        for i in 0..4 {
            assert_eq!(batch.value(i, j), record.field(i));
        }
    }
    assert_eq!(batch.value(0, 1), Some(Cell::Timestamp(1_700_000_001_000_003)));
    assert_eq!(batch.value(1, 2), Some(Cell::Integer(62)));
    assert_eq!(batch.value(2, 0), Some(Cell::Double(10.5f64.to_bits())));
    assert_eq!(batch.value(3, 2), Some(Cell::Double((-22.25f64).to_bits())));
    assert_eq!(batch.value(4, 0), None);
    assert_eq!(batch.value(0, 3), None);
}

#[test]
fn conversion_reads_back_as_doubles() {
    let records = sample_records();
    let batch = convert_to_batch(&WeatherRecord::schema(), &records).unwrap();
    match batch.column(2) {
        Some(Column::Double(bits)) => {
            let values: Vec<f64> = bits.iter().map(|b| f64::from_bits(*b)).collect();
            assert_eq!(values, vec![10.5, 11.5, 12.5]);
        }
        other => panic!("latitude column has the wrong shape: {:?}", other),
    }
    match batch.column(3) {
        Some(Column::Double(bits)) => {
            let values: Vec<f64> = bits.iter().map(|b| f64::from_bits(*b)).collect();
            assert_eq!(values, vec![-20.25, -21.25, -22.25]);
        }
        other => panic!("longitude column has the wrong shape: {:?}", other),
    }
}

#[test]
fn conversion_of_fetched_readings() {
    let records = fetch_readings();
    let batch = convert_to_batch(&WeatherRecord::schema(), &records).unwrap();
    assert_eq!(batch.num_rows(), 5);
    match batch.column(1) {
        Some(Column::Integer(temps)) => assert_eq!(temps, &vec![71, 70, 69, 68, 67]),
        other => panic!("temperature column has the wrong shape: {:?}", other),
    }
    match batch.column(0) {
        Some(Column::Timestamp(micros)) => {
            for (j, record) in records.iter().enumerate() {
                assert_eq!(micros[j], record.timestamp.timestamp_micros());
            }
        }
        other => panic!("timestamp column has the wrong shape: {:?}", other),
    }
    let names: Vec<&str> = batch.schema().get_fields().iter().map(|f| f.name.as_str()).collect();
    assert_eq!(names, vec!["timestamp", "temp", "lat", "long"]);
}

#[test]
fn empty_input_gives_empty_typed_columns() {
    let batch = convert_to_batch(&WeatherRecord::schema(), &Vec::new()).unwrap();
    assert_eq!(batch.num_rows(), 0);
    assert_eq!(batch.num_columns(), 4);
    let expected = [
        PrimitiveType::Timestamp,
        PrimitiveType::Integer,
        PrimitiveType::Double,
        PrimitiveType::Double,
    ];
    for i in 0..4 {
        let column = batch.column(i).unwrap();
        assert_eq!(column.len(), 0);
        assert_eq!(column.data_type(), expected[i]);
        assert_eq!(column.get(0), None);
    }
    assert!(batch.column(4).is_none());
    assert_eq!(batch.value(0, 0), None);
}

#[test]
fn conversion_ignores_field_names() {
    let renamed = Schema::new(vec![
        field("at", PrimitiveType::Timestamp),
        field("fahrenheit", PrimitiveType::Integer),
        field("y", PrimitiveType::Double),
        field("x", PrimitiveType::Double),
    ])
    .unwrap();
    let batch = convert_to_batch(&renamed, &sample_records()).unwrap();
    assert_eq!(batch.schema().get_fields()[1].name, "fahrenheit");
    assert_eq!(batch.num_rows(), 3);
}

#[test]
fn conversion_reports_wrong_field_count() {
    let short = Schema::new(vec![
        field("timestamp", PrimitiveType::Timestamp),
        field("temp", PrimitiveType::Integer),
        field("lat", PrimitiveType::Double),
    ])
    .unwrap();
    assert_eq!(
        convert_to_batch(&short, &sample_records()).unwrap_err(),
        BatchError::ColumnCountMismatch { columns: 4, fields: 3 }
    );
    let none = Schema::new(Vec::new()).unwrap();
    assert_eq!(
        convert_to_batch(&none, &Vec::new()).unwrap_err(),
        BatchError::ColumnCountMismatch { columns: 4, fields: 0 }
    );
}

#[test]
fn conversion_reports_first_wrong_type() {
    let swapped = Schema::new(vec![
        field("timestamp", PrimitiveType::Timestamp),
        field("lat", PrimitiveType::Double),
        field("temp", PrimitiveType::Integer),
        field("long", PrimitiveType::Double),
    ])
    .unwrap();
    assert_eq!(
        convert_to_batch(&swapped, &sample_records()).unwrap_err(),
        BatchError::TypeMismatch { column: 1 }
    );
    let last = Schema::new(vec![
        field("timestamp", PrimitiveType::Timestamp),
        field("temp", PrimitiveType::Integer),
        field("lat", PrimitiveType::Double),
        field("long", PrimitiveType::Timestamp),
    ])
    .unwrap();
    assert_eq!(
        convert_to_batch(&last, &Vec::new()).unwrap_err(),
        BatchError::TypeMismatch { column: 3 }
    );
}

#[test]
fn assembly_checks_count_then_lengths_then_types() {
    let schema = || {
        Schema::new(vec![
            field("a", PrimitiveType::Integer),
            field("b", PrimitiveType::Double),
        ])
        .unwrap()
    };
    let batch = ColumnarBatch::try_new(
        schema(),
        vec![Column::Integer(vec![1, 2]), Column::Double(vec![3, 4])],
    )
    .unwrap();
    assert_eq!(batch.num_rows(), 2);
    assert_eq!(batch.value(1, 1), Some(Cell::Double(4)));

    assert_eq!(
        ColumnarBatch::try_new(schema(), vec![Column::Integer(vec![1])]).unwrap_err(),
        BatchError::ColumnCountMismatch { columns: 1, fields: 2 }
    );
    assert_eq!(
        ColumnarBatch::try_new(Schema::new(Vec::new()).unwrap(), Vec::new()).unwrap_err(),
        BatchError::NoColumns
    );
    assert_eq!(
        ColumnarBatch::try_new(
            schema(),
            vec![Column::Double(vec![1, 2]), Column::Double(vec![3])]
        )
        .unwrap_err(),
        BatchError::LengthMismatch
    );
    assert_eq!(
        ColumnarBatch::try_new(
            schema(),
            vec![Column::Double(vec![1]), Column::Integer(vec![3])]
        )
        .unwrap_err(),
        BatchError::TypeMismatch { column: 0 }
    );
    assert_eq!(
        ColumnarBatch::try_new(
            schema(),
            vec![Column::Integer(vec![1]), Column::Timestamp(vec![3])]
        )
        .unwrap_err(),
        BatchError::TypeMismatch { column: 1 }
    );
}

#[test]
fn columns_answer_for_themselves() {
    let column = Column::Timestamp(vec![5, 6, 7]);
    assert_eq!(column.len(), 3);
    assert_eq!(column.data_type(), PrimitiveType::Timestamp);
    assert_eq!(column.get(2), Some(Cell::Timestamp(7)));
    assert_eq!(column.get(3), None);
    assert_eq!(Column::Integer(vec![-1]).get(0), Some(Cell::Integer(-1)));
    assert_eq!(Column::Double(Vec::new()).data_type(), PrimitiveType::Double);
}
