//! Weather readings as rows, and the generator that produces them.

use crate::clock::{Instant, Timestamp};
use crate::schema::{
    annotation_views, distinct_names, field_views, FieldView, PrimitiveType, Schema, SchemaField,
};
use vstd::prelude::*;

verus! {

/// Temperatures are whole degrees Fahrenheit.
pub type Fahrenheit = i32;

/// Temperature of a reading before any adjustment.
pub const BASELINE_TEMP: Fahrenheit = 72;

/// Latitude of the sensor, 39.61940984546992 degrees, as the bits of a double.
pub const SENSOR_LAT: u64 = 0x4043_cf48_d262_8e8e;

/// Longitude of the sensor, -119.22916208856955 degrees, as the bits of a double.
pub const SENSOR_LONG: u64 = 0xc05d_ceaa_9776_f8ea;

/// How many readings one fetch produces.
pub const READINGS_PER_FETCH: u32 = 5;

/// The longest series whose last temperature still fits a [`Fahrenheit`].
pub const MAX_SERIES: u32 = 2_147_483_720;

/// Number of fields of a reading.
pub const FIELD_COUNT: usize = 4;

/// One value of a row or of a column. Doubles are carried as their bits.
#[derive(Clone, Copy, Debug, PartialEq, Eq, Structural)]
pub enum Cell {
    /// Microseconds since the Unix epoch.
    Timestamp(i64),
    Integer(i32),
    /// The IEEE 754 bits of a double.
    Double(u64),
}

impl Cell {
    /// The primitive type the value belongs to.
    pub open spec fn data_type(self) -> PrimitiveType {
        match self {
            Cell::Timestamp(_) => PrimitiveType::Timestamp,
            Cell::Integer(_) => PrimitiveType::Integer,
            Cell::Double(_) => PrimitiveType::Double,
        }
    }
}

/// Mathematical value of a [`WeatherRecord`].
pub struct Reading {
    pub timestamp: Instant,
    pub temp: int,
    pub lat: u64,
    pub long: u64,
}

impl Reading {
    /// The value of field `index`, counted in schema order. The timestamp is
    /// given in whole microseconds.
    pub open spec fn cell(self, index: int) -> Cell {
        if index == 0 {
            Cell::Timestamp(self.timestamp.micros() as i64)
        } else if index == 1 {
            Cell::Integer(self.temp as i32)
        } else if index == 2 {
            Cell::Double(self.lat)
        } else {
            Cell::Double(self.long)
        }
    }

    /// The reading every sensor reports before adjustment, taken at `at`.
    pub open spec fn baseline(at: Instant) -> Reading {
        Reading { timestamp: at, temp: BASELINE_TEMP as int, lat: SENSOR_LAT, long: SENSOR_LONG }
    }
}

/// One observation of the sensor. The coordinates are the bits of doubles.
#[derive(Clone, Copy, Debug)]
pub struct WeatherRecord {
    pub timestamp: Timestamp,
    pub temp: Fahrenheit,
    pub lat: u64,
    pub long: u64,
}

impl View for WeatherRecord {
    type V = Reading;

    open spec fn view(&self) -> Reading {
        Reading {
            timestamp: self.timestamp@,
            temp: self.temp as int,
            lat: self.lat,
            long: self.long,
        }
    }
}

/// The readings of a list as mathematical values, in the same order.
pub open spec fn readings_of(records: Seq<WeatherRecord>) -> Seq<Reading> {
    Seq::new(records.len(), |i: int| records[i]@)
}

/// The four fields every reading has: `timestamp`, `temp`, `lat`, `long`, all nullable.
pub open spec fn weather_fields() -> Seq<FieldView> {
    seq![
        FieldView {
            name: "timestamp"@,
            data_type: PrimitiveType::Timestamp,
            nullable: true,
            metadata: Seq::empty(),
        },
        FieldView {
            name: "temp"@,
            data_type: PrimitiveType::Integer,
            nullable: true,
            metadata: Seq::empty(),
        },
        FieldView {
            name: "lat"@,
            data_type: PrimitiveType::Double,
            nullable: true,
            metadata: Seq::empty(),
        },
        FieldView {
            name: "long"@,
            data_type: PrimitiveType::Double,
            nullable: true,
            metadata: Seq::empty(),
        },
    ]
}

/// The weather fields are four, in the order timestamp, temp, lat, long, typed
/// timestamp, integer, double, double, each nullable, and no two share a name.
pub proof fn lemma_weather_fields_shape()
    ensures
        weather_fields().len() == 4,
        weather_fields()[0].name == "timestamp"@,
        weather_fields()[1].name == "temp"@,
        weather_fields()[2].name == "lat"@,
        weather_fields()[3].name == "long"@,
        weather_fields()[0].data_type == PrimitiveType::Timestamp,
        weather_fields()[1].data_type == PrimitiveType::Integer,
        weather_fields()[2].data_type == PrimitiveType::Double,
        weather_fields()[3].data_type == PrimitiveType::Double,
        forall|i: int| 0 <= i < 4 ==> (#[trigger] weather_fields()[i]).nullable,
        forall|i: int| 0 <= i < 4 ==> (#[trigger] weather_fields()[i]).metadata.len() == 0,
        distinct_names(weather_fields()),
{
    reveal_strlit("timestamp");
    reveal_strlit("temp");
    reveal_strlit("lat");
    reveal_strlit("long");
    assert("temp"@[0] == 't');
    assert("long"@[0] == 'l');
}

impl WeatherRecord {
    /// The schema of the table that holds the readings.
    pub fn schema() -> (schema: Schema)
        ensures
            schema@ == weather_fields(),
    {
        let mut fields: Vec<SchemaField> = Vec::new();
        fields.push(
            SchemaField::new("timestamp".to_owned(), PrimitiveType::Timestamp, true, Vec::new()),
        );
        fields.push(SchemaField::new("temp".to_owned(), PrimitiveType::Integer, true, Vec::new()));
        fields.push(SchemaField::new("lat".to_owned(), PrimitiveType::Double, true, Vec::new()));
        fields.push(SchemaField::new("long".to_owned(), PrimitiveType::Double, true, Vec::new()));
        proof {
            lemma_weather_fields_shape();
            assert(annotation_views(Seq::<(String, String)>::empty()) =~= Seq::empty());
            assert(field_views(fields@) =~= weather_fields());
        }
        Schema::from_distinct(fields)
    }

    /// The baseline reading taken at `timestamp`.
    pub fn observed_at(timestamp: Timestamp) -> (record: WeatherRecord)
        ensures
            record@ == Reading::baseline(timestamp@),
    {
        WeatherRecord { timestamp, temp: BASELINE_TEMP, lat: SENSOR_LAT, long: SENSOR_LONG }
    }

    /// The value of field `index`, counted in schema order, or `None` past the
    /// last field.
    pub fn field(&self, index: usize) -> (cell: Option<Cell>)
        ensures
            cell is Some <==> index < FIELD_COUNT,
            cell is Some ==> cell.unwrap() == self@.cell(index as int),
            self@.timestamp.in_range(),
    {
        let micros = self.timestamp.timestamp_micros();
        if index == 0 {
            Some(Cell::Timestamp(micros))
        } else if index == 1 {
            Some(Cell::Integer(self.temp))
        } else if index == 2 {
            Some(Cell::Double(self.lat))
        } else if index == 3 {
            Some(Cell::Double(self.long))
        } else {
            None
        }
    }
}

impl Default for WeatherRecord {
    /// The baseline reading taken now.
    fn default() -> (record: WeatherRecord)
        ensures
            record@ == Reading::baseline(record@.timestamp),
            record@.timestamp.is_clock_reading(),
    {
        WeatherRecord::observed_at(Timestamp::now())
    }
}

/// Whether `readings` is the series of `count` readings the generator
/// produces: the reading at 1-based position `k` is the baseline cooled by `k`
/// degrees, taken at an instant the clock can show.
pub open spec fn is_series(readings: Seq<Reading>, count: int) -> bool {
    &&& readings.len() == count
    &&& forall|k: int|
        0 <= k < count ==> (#[trigger] readings[k]) == (Reading {
            temp: BASELINE_TEMP - (k + 1),
            ..Reading::baseline(readings[k].timestamp)
        })
    &&& forall|k: int| 0 <= k < count ==> (#[trigger] readings[k]).timestamp.is_clock_reading()
}

/// A series of `count` readings, each taken at the moment it is generated.
pub fn generate_readings(count: u32) -> (readings: Vec<WeatherRecord>)
    requires
        count <= MAX_SERIES,
    ensures
        readings@.len() == count,
        is_series(readings_of(readings@), count as int),
{
    let mut readings: Vec<WeatherRecord> = Vec::new();
    let mut i: u32 = 0;
    while i < count
        invariant
            i <= count <= MAX_SERIES,
            is_series(readings_of(readings@), i as int),
        decreases count - i,
    {
        let mut wx = WeatherRecord::default();
        let step: i64 = i as i64 + 1;
        let cooled: i64 = wx.temp as i64 - step;
        wx.temp = cooled as i32;
        let ghost before = readings_of(readings@);
        readings.push(wx);
        i = i + 1;
        proof {
            let after = readings_of(readings@);
            assert(after.len() == i);
            assert forall|k: int| 0 <= k < i implies (#[trigger] after[k]) == (Reading {
                temp: BASELINE_TEMP - (k + 1),
                ..Reading::baseline(after[k].timestamp)
            }) && after[k].timestamp.is_clock_reading() by {
                if k < i - 1 {
                    assert(after[k] == before[k]);
                }
            }
        }
    }
    readings
}

/// The five readings of one fetch: temperatures 71, 70, 69, 68 and 67.
pub fn fetch_readings() -> (readings: Vec<WeatherRecord>)
    ensures
        readings@.len() == READINGS_PER_FETCH,
        is_series(readings_of(readings@), READINGS_PER_FETCH as int),
{
    generate_readings(READINGS_PER_FETCH)
}

} // verus!
