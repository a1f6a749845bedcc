//! Columnar batches: one typed array per schema field, all of one length, and
//! the conversion of rows into them.

use crate::record::{readings_of, weather_fields, Cell, Reading, WeatherRecord};
use crate::schema::{field_views, types_of, FieldView, PrimitiveType, Schema};
use vstd::prelude::*;

verus! {

/// One contiguous, typed array of values. Doubles are carried as their bits.
#[derive(Debug)]
pub enum Column {
    /// Microseconds since the Unix epoch.
    Timestamp(Vec<i64>),
    Integer(Vec<i32>),
    /// The IEEE 754 bits of doubles.
    Double(Vec<u64>),
}

/// Mathematical value of a [`Column`].
pub enum ColumnView {
    Timestamp(Seq<i64>),
    Integer(Seq<i32>),
    Double(Seq<u64>),
}

impl ColumnView {
    /// The number of values.
    pub open spec fn len(self) -> nat {
        match self {
            ColumnView::Timestamp(values) => values.len(),
            ColumnView::Integer(values) => values.len(),
            ColumnView::Double(values) => values.len(),
        }
    }

    /// The logical type of the values.
    pub open spec fn data_type(self) -> PrimitiveType {
        match self {
            ColumnView::Timestamp(_) => PrimitiveType::Timestamp,
            ColumnView::Integer(_) => PrimitiveType::Integer,
            ColumnView::Double(_) => PrimitiveType::Double,
        }
    }

    /// The value at `row`.
    pub open spec fn cell(self, row: int) -> Cell
        recommends
            0 <= row < self.len(),
    {
        match self {
            ColumnView::Timestamp(values) => Cell::Timestamp(values[row]),
            ColumnView::Integer(values) => Cell::Integer(values[row]),
            ColumnView::Double(values) => Cell::Double(values[row]),
        }
    }
}

impl View for Column {
    type V = ColumnView;

    open spec fn view(&self) -> ColumnView {
        match self {
            Column::Timestamp(values) => ColumnView::Timestamp(values@),
            Column::Integer(values) => ColumnView::Integer(values@),
            Column::Double(values) => ColumnView::Double(values@),
        }
    }
}

impl Column {
    /// The number of values.
    pub fn len(&self) -> (n: usize)
        ensures
            n == self@.len(),
    {
        match self {
            Column::Timestamp(values) => values.len(),
            Column::Integer(values) => values.len(),
            Column::Double(values) => values.len(),
        }
    }

    /// The logical type of the values.
    pub fn data_type(&self) -> (data_type: PrimitiveType)
        ensures
            data_type == self@.data_type(),
    {
        match self {
            Column::Timestamp(_) => PrimitiveType::Timestamp,
            Column::Integer(_) => PrimitiveType::Integer,
            Column::Double(_) => PrimitiveType::Double,
        }
    }

    /// The value at `row`, or `None` past the end.
    pub fn get(&self, row: usize) -> (cell: Option<Cell>)
        ensures
            cell is Some <==> row < self@.len(),
            cell is Some ==> cell.unwrap() == self@.cell(row as int),
    {
        if row >= self.len() {
            return None;
        }
        match self {
            Column::Timestamp(values) => Some(Cell::Timestamp(values[row])),
            Column::Integer(values) => Some(Cell::Integer(values[row])),
            Column::Double(values) => Some(Cell::Double(values[row])),
        }
    }
}

/// The columns of a list as mathematical values, in the same order.
pub open spec fn column_views(columns: Seq<Column>) -> Seq<ColumnView> {
    Seq::new(columns.len(), |i: int| columns[i]@)
}

/// Why a list of columns cannot be assembled into a batch for a schema.
#[derive(Clone, Copy, Debug, PartialEq, Eq, Structural)]
pub enum BatchError {
    /// The schema has `fields` fields but `columns` columns were given.
    ColumnCountMismatch { columns: usize, fields: usize },
    /// There is no column to take the row count from.
    NoColumns,
    /// Not all columns have the length of the first.
    LengthMismatch,
    /// `column` is the first column whose type is not that of its field.
    TypeMismatch { column: usize },
}

/// Every column has the length of the first.
pub open spec fn equal_lengths(columns: Seq<ColumnView>) -> bool {
    forall|i: int| 0 <= i < columns.len() ==> (#[trigger] columns[i]).len() == columns[0].len()
}

/// Column `i` has the type of field `i`.
pub open spec fn type_agrees(schema: Seq<FieldView>, columns: Seq<ColumnView>, i: int) -> bool {
    columns[i].data_type() == schema[i].data_type
}

/// Whether `columns` form a batch for `schema`: as many columns as fields and
/// at least one, all of one length, each of the type of its field.
pub open spec fn assembles(schema: Seq<FieldView>, columns: Seq<ColumnView>) -> bool {
    &&& columns.len() == schema.len()
    &&& columns.len() > 0
    &&& equal_lengths(columns)
    &&& forall|i: int| 0 <= i < columns.len() ==> type_agrees(schema, columns, i)
}

/// Whether `error` is the reason for which `columns` form no batch for
/// `schema`. The reasons are tried in the order count, emptiness, lengths,
/// types, and the first that applies is the one reported.
pub open spec fn rejects(
    schema: Seq<FieldView>,
    columns: Seq<ColumnView>,
    error: BatchError,
) -> bool {
    match error {
        BatchError::ColumnCountMismatch { columns: given, fields } => {
            &&& given == columns.len()
            &&& fields == schema.len()
            &&& given != fields
        },
        BatchError::NoColumns => columns.len() == schema.len() && columns.len() == 0,
        BatchError::LengthMismatch => {
            &&& columns.len() == schema.len()
            &&& columns.len() > 0
            &&& !equal_lengths(columns)
        },
        BatchError::TypeMismatch { column } => {
            &&& columns.len() == schema.len()
            &&& equal_lengths(columns)
            &&& column < columns.len()
            &&& !type_agrees(schema, columns, column as int)
            &&& forall|i: int| 0 <= i < column ==> type_agrees(schema, columns, i)
        },
    }
}

/// Columns that assemble are rejected for no reason, and columns that are
/// rejected are rejected for exactly one.
pub proof fn lemma_rejection_is_decided(
    schema: Seq<FieldView>,
    columns: Seq<ColumnView>,
    first: BatchError,
    second: BatchError,
)
    requires
        rejects(schema, columns, first),
    ensures
        !assembles(schema, columns),
        rejects(schema, columns, second) ==> first == second,
{
    if let BatchError::TypeMismatch { column } = first {
        assert(!type_agrees(schema, columns, column as int));
        if let BatchError::TypeMismatch { column: other } = second {
            if rejects(schema, columns, second) {
                if column < other {
                    assert(type_agrees(schema, columns, column as int));
                } else if other < column {
                    assert(type_agrees(schema, columns, other as int));
                }
            }
        }
    }
}

/// Mathematical value of a [`ColumnarBatch`].
pub struct BatchView {
    pub schema: Seq<FieldView>,
    pub columns: Seq<ColumnView>,
}

impl BatchView {
    /// The number of rows, which is the length of every column.
    pub open spec fn num_rows(self) -> nat
        recommends
            self.columns.len() > 0,
    {
        self.columns[0].len()
    }

    /// The number of columns.
    pub open spec fn num_columns(self) -> nat {
        self.columns.len()
    }

    /// The value of column `column` at `row`.
    pub open spec fn cell(self, column: int, row: int) -> Cell
        recommends
            0 <= column < self.columns.len(),
            0 <= row < self.num_rows(),
    {
        self.columns[column].cell(row)
    }
}

/// A fixed set of equally long columns that agree with a schema, field by
/// field. Once built, a batch does not change.
#[derive(Debug)]
pub struct ColumnarBatch {
    schema: Schema,
    columns: Vec<Column>,
    row_count: usize,
}

impl View for ColumnarBatch {
    type V = BatchView;

    closed spec fn view(&self) -> BatchView {
        BatchView { schema: self.schema@, columns: column_views(self.columns@) }
    }
}

impl ColumnarBatch {
    #[verifier::type_invariant]
    spec fn is_assembled(self) -> bool {
        &&& assembles(self@.schema, self@.columns)
        &&& self.row_count == self@.num_rows()
    }

    /// Assembles `columns` into a batch for `schema`, or says why they form none.
    pub fn try_new(schema: Schema, columns: Vec<Column>) -> (result: Result<
        ColumnarBatch,
        BatchError,
    >)
        ensures
            match result {
                Ok(batch) => {
                    &&& assembles(schema@, column_views(columns@))
                    &&& batch@ == (BatchView {
                        schema: schema@,
                        columns: column_views(columns@),
                    })
                },
                Err(error) => rejects(schema@, column_views(columns@), error),
            },
    {
        let ghost views = column_views(columns@);
        let fields = schema.get_fields();
        let count = columns.len();
        if count != fields.len() {
            return Err(BatchError::ColumnCountMismatch { columns: count, fields: fields.len() });
        }
        if count == 0 {
            return Err(BatchError::NoColumns);
        }
        let row_count = columns[0].len();
        let mut i: usize = 0;
        while i < count
            invariant
                count == columns@.len(),
                count == schema@.len(),
                views == column_views(columns@),
                row_count == views[0].len(),
                i <= count,
                forall|k: int| 0 <= k < i ==> (#[trigger] views[k]).len() == row_count,
            decreases count - i,
        {
            if columns[i].len() != row_count {
                assert(views[i as int].len() != views[0].len());
                assert(!equal_lengths(views));
                return Err(BatchError::LengthMismatch);
            }
            i = i + 1;
        }
        let mut j: usize = 0;
        while j < count
            invariant
                count == columns@.len(),
                count == fields@.len(),
                field_views(fields@) == schema@,
                views == column_views(columns@),
                j <= count,
                equal_lengths(views),
                forall|k: int| 0 <= k < j ==> type_agrees(schema@, views, k),
            decreases count - j,
        {
            if columns[j].data_type() != fields[j].data_type {
                assert(schema@[j as int] == fields@[j as int]@);
                return Err(BatchError::TypeMismatch { column: j });
            }
            assert(schema@[j as int] == fields@[j as int]@);
            j = j + 1;
        }
        Ok(ColumnarBatch { schema, columns, row_count })
    }

    /// The number of rows.
    pub fn num_rows(&self) -> (rows: usize)
        ensures
            rows == self@.num_rows(),
            assembles(self@.schema, self@.columns),
    {
        proof {
            use_type_invariant(self);
        }
        self.row_count
    }

    /// The number of columns.
    pub fn num_columns(&self) -> (columns: usize)
        ensures
            columns == self@.num_columns(),
            assembles(self@.schema, self@.columns),
    {
        proof {
            use_type_invariant(self);
        }
        self.columns.len()
    }

    /// The schema the batch was assembled for.
    pub fn schema(&self) -> (schema: &Schema)
        ensures
            schema@ == self@.schema,
    {
        &self.schema
    }

    /// The column at `index`, or `None` past the last column.
    pub fn column(&self, index: usize) -> (column: Option<&Column>)
        ensures
            column is Some <==> index < self@.num_columns(),
            column is Some ==> column.unwrap()@ == self@.columns[index as int],
    {
        if index < self.columns.len() {
            Some(&self.columns[index])
        } else {
            None
        }
    }

    /// The value of column `column` at `row`, or `None` outside the batch.
    pub fn value(&self, column: usize, row: usize) -> (cell: Option<Cell>)
        ensures
            cell is Some <==> column < self@.num_columns() && row < self@.num_rows(),
            cell is Some ==> cell.unwrap() == self@.cell(column as int, row as int),
    {
        proof {
            use_type_invariant(self);
        }
        if column < self.columns.len() {
            assert(self@.columns[column as int].len() == self@.columns[0].len());
            self.columns[column].get(row)
        } else {
            None
        }
    }
}

/// The four columns that hold `readings`: row `j` of each column is the
/// matching field of reading `j`, with the timestamp in whole microseconds.
pub open spec fn columns_of(readings: Seq<Reading>) -> Seq<ColumnView> {
    seq![
        ColumnView::Timestamp(
            Seq::new(readings.len(), |j: int| readings[j].timestamp.micros() as i64),
        ),
        ColumnView::Integer(Seq::new(readings.len(), |j: int| readings[j].temp as i32)),
        ColumnView::Double(Seq::new(readings.len(), |j: int| readings[j].lat)),
        ColumnView::Double(Seq::new(readings.len(), |j: int| readings[j].long)),
    ]
}

/// The types of the four columns of readings, in order.
pub open spec fn reading_types() -> Seq<PrimitiveType> {
    seq![
        PrimitiveType::Timestamp,
        PrimitiveType::Integer,
        PrimitiveType::Double,
        PrimitiveType::Double,
    ]
}

/// Reading back column `i`, row `j` of the columns of `readings` gives field
/// `i` of reading `j`: nothing is moved and nothing is lost but what lies
/// below a microsecond in the timestamp.
pub proof fn lemma_round_trip(readings: Seq<Reading>, i: int, j: int)
    requires
        0 <= i < 4,
        0 <= j < readings.len(),
    ensures
        columns_of(readings).len() == 4,
        columns_of(readings)[i].len() == readings.len(),
        columns_of(readings)[i].cell(j) == readings[j].cell(i),
{
}

/// The columns of readings are four, of the types timestamp, integer, double
/// and double, and each is as long as the list of readings.
pub proof fn lemma_columns_shape(readings: Seq<Reading>)
    ensures
        columns_of(readings).len() == 4,
        equal_lengths(columns_of(readings)),
        forall|i: int|
            0 <= i < 4 ==> (#[trigger] columns_of(readings)[i]).len() == readings.len(),
        forall|i: int|
            0 <= i < 4 ==> (#[trigger] columns_of(readings)[i]).data_type() == reading_types()[i],
{
}

/// The columns of readings assemble for a schema exactly when the schema has
/// four fields of the types timestamp, integer, double and double, whatever
/// the number of readings.
pub proof fn lemma_assembles_iff_types(schema: Seq<FieldView>, readings: Seq<Reading>)
    ensures
        assembles(schema, columns_of(readings)) <==> types_of(schema) == reading_types(),
{
    let columns = columns_of(readings);
    lemma_columns_shape(readings);
    if assembles(schema, columns) {
        assert forall|i: int| 0 <= i < 4 implies types_of(schema)[i] == reading_types()[i] by {
            assert(type_agrees(schema, columns, i));
        }
        assert(types_of(schema) =~= reading_types());
    }
    if types_of(schema) == reading_types() {
        assert(types_of(schema).len() == 4);
        assert forall|i: int| 0 <= i < columns.len() implies type_agrees(schema, columns, i) by {
            assert(types_of(schema)[i] == reading_types()[i]);
        }
    }
}

/// No readings at all still give four typed columns, each of length zero,
/// and they assemble for the weather schema.
pub proof fn lemma_empty_conversion()
    ensures
        columns_of(Seq::<Reading>::empty()).len() == 4,
        forall|i: int|
            0 <= i < 4 ==> (#[trigger] columns_of(Seq::<Reading>::empty())[i]).len() == 0,
        forall|i: int|
            0 <= i < 4 ==> (#[trigger] columns_of(Seq::<Reading>::empty())[i]).data_type()
                == reading_types()[i],
        assembles(weather_fields(), columns_of(Seq::<Reading>::empty())),
{
    lemma_weather_schema_accepts(Seq::<Reading>::empty());
}

/// Readings always assemble for the weather schema.
pub proof fn lemma_weather_schema_accepts(readings: Seq<Reading>)
    ensures
        assembles(weather_fields(), columns_of(readings)),
{
    assert(types_of(weather_fields()) =~= reading_types());
    lemma_assembles_iff_types(weather_fields(), readings);
}

/// Turns rows into columns: record `k` lands at row `k` of each of the four
/// columns, and the columns are assembled into a batch for `schema`.
///
/// The conversion succeeds exactly when `schema` has the four field types of
/// a reading in order; otherwise the reason is reported.
pub fn convert_to_batch(schema: &Schema, records: &Vec<WeatherRecord>) -> (result: Result<
    ColumnarBatch,
    BatchError,
>)
    ensures
        result is Ok <==> types_of(schema@) == reading_types(),
        match result {
            Ok(batch) => {
                &&& batch@.schema == schema@
                &&& batch@.columns == columns_of(readings_of(records@))
                &&& batch@.num_rows() == records@.len()
                &&& batch@.num_columns() == schema@.len()
            },
            Err(error) => rejects(schema@, columns_of(readings_of(records@)), error),
        },
{
    let ghost readings = readings_of(records@);
    let mut ts: Vec<i64> = Vec::new();
    let mut temp: Vec<i32> = Vec::new();
    let mut lat: Vec<u64> = Vec::new();
    let mut long: Vec<u64> = Vec::new();
    let mut k: usize = 0;
    while k < records.len()
        invariant
            k <= records@.len(),
            readings == readings_of(records@),
            ts@.len() == k,
            temp@.len() == k,
            lat@.len() == k,
            long@.len() == k,
            forall|j: int| 0 <= j < k ==> ts@[j] == readings[j].timestamp.micros(),
            forall|j: int| 0 <= j < k ==> temp@[j] == readings[j].temp,
            forall|j: int| 0 <= j < k ==> lat@[j] == readings[j].lat,
            forall|j: int| 0 <= j < k ==> long@[j] == readings[j].long,
        decreases records@.len() - k,
    {
        let record = &records[k];
        ts.push(record.timestamp.timestamp_micros());
        temp.push(record.temp);
        lat.push(record.lat);
        long.push(record.long);
        k = k + 1;
    }
    let mut columns: Vec<Column> = Vec::new();
    columns.push(Column::Timestamp(ts));
    columns.push(Column::Integer(temp));
    columns.push(Column::Double(lat));
    columns.push(Column::Double(long));
    proof {
        let expected = columns_of(readings);
        let built = column_views(columns@);
        assert(built[0] == expected[0]) by {
            assert(ts@ =~= expected[0]->Timestamp_0);
        }
        assert(built[1] == expected[1]) by {
            assert(temp@ =~= expected[1]->Integer_0);
        }
        assert(built[2] == expected[2]) by {
            assert(lat@ =~= expected[2]->Double_0);
        }
        assert(built[3] == expected[3]) by {
            assert(long@ =~= expected[3]->Double_0);
        }
        assert(built =~= expected);
        lemma_assembles_iff_types(schema@, readings);
        lemma_columns_shape(readings);
    }
    let result = ColumnarBatch::try_new(schema.duplicate(), columns);
    proof {
        if let Err(error) = result {
            lemma_rejection_is_decided(schema@, columns_of(readings), error, error);
        }
    }
    result
}

} // verus!
