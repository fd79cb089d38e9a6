//! Turning the rows of a Postgres result into columns.
use vstd::prelude::*;
use vstd::string::*;
use crate::decimal::decimal_text_of;
use crate::decimal::BigDecimalFromSql;

verus! {

/// The column types of Postgres that can be turned into columns.
#[derive(Clone, Copy, Debug, PartialEq, Eq, Structural)]
pub enum PgType {
    Int2,
    Int4,
    Int8,
    Float4,
    Float8,
    Text,
    Bool,
    Numeric,
    Timestamp,
    /// Any other type.
    Other,
}

/// What can go wrong while rows are turned into columns.
#[derive(Clone, Debug)]
pub enum Error {
    /// The columns do not make a batch; the text is the builder's reason.
    FailedToBuildRecordBatch { source: String },
    /// A column has no builder.
    NoBuilderForIndex { index: usize },
    /// The builder of a column is not the one its type asks for.
    FailedToDowncastBuilder { postgres_type: String },
    /// A count does not fit into 64 bits.
    FailedToConvertU64toI64,
    /// A count of milliseconds does not fit into 64 bits.
    FailedToConvertU128toI64,
    /// The bytes of a decimal number cannot be read.
    FailedToParseBigDecmialFromPostgres { bytes: Vec<u8> },
    /// A decimal number does not fit into 128 bits; the text is the number.
    FailedToConvertBigDecmialToI128 { big_decimal: String },
    /// The schema has no field of that name.
    FailedToFindFieldInSchema { column_name: String },
    /// A column has no field.
    NoArrowFieldForIndex { index: usize },
    /// A column has no name.
    NoColumnNameForIndex { index: usize },
}

/// A column of a result: its name and its type.
#[derive(Clone, Debug)]
pub struct PgColumn {
    pub name: String,
    pub pg_type: PgType,
}

/// One value of a row. A floating-point number is held by its bits. A
/// timestamp is held as the milliseconds since the start of 1970, and is
/// absent where it lies before that.
pub enum PgValue {
    Int2(i16),
    Int4(i32),
    Int8(i64),
    Float4(u32),
    Float8(u64),
    Text(String),
    Bool(bool),
    Numeric(BigDecimalFromSql),
    Timestamp(Option<u128>),
}

/// The type of the values of a column of a batch.
#[derive(Clone, Copy, Debug, PartialEq, Eq, Structural)]
pub enum DataType {
    Int16,
    Int32,
    Int64,
    Float32,
    Float64,
    Utf8,
    Boolean,
    /// A decimal number of a precision and a scale.
    Decimal128(u8, i8),
    /// Milliseconds since the start of 1970, without a time zone.
    TimestampMillisecond,
}

/// A column of a batch, by name and type.
#[derive(Clone, Debug)]
pub struct Field {
    pub name: String,
    pub data_type: DataType,
    pub nullable: bool,
}

/// The values of a column of a batch.
#[derive(Clone, Debug)]
pub enum ColumnData {
    Int16(Vec<i16>),
    Int32(Vec<i32>),
    Int64(Vec<i64>),
    Float32(Vec<u32>),
    Float64(Vec<u64>),
    Utf8(Vec<String>),
    Boolean(Vec<bool>),
    Decimal128(Vec<i128>),
    TimestampMillisecond(Vec<i64>),
}

/// The rows of a result as columns.
#[derive(Clone, Debug)]
pub struct Table {
    pub fields: Vec<Field>,
    pub columns: Vec<ColumnData>,
    pub row_count: usize,
}

pub enum ColumnView {
    Int16(Seq<i16>),
    Int32(Seq<i32>),
    Int64(Seq<i64>),
    Float32(Seq<u32>),
    Float64(Seq<u64>),
    Utf8(Seq<Seq<char>>),
    Boolean(Seq<bool>),
    Decimal128(Seq<i128>),
    TimestampMillisecond(Seq<i64>),
}

impl View for ColumnData {
    type V = ColumnView;

    open spec fn view(&self) -> ColumnView {
        match self {
            ColumnData::Int16(v) => ColumnView::Int16(v@),
            ColumnData::Int32(v) => ColumnView::Int32(v@),
            ColumnData::Int64(v) => ColumnView::Int64(v@),
            ColumnData::Float32(v) => ColumnView::Float32(v@),
            ColumnData::Float64(v) => ColumnView::Float64(v@),
            ColumnData::Utf8(v) => ColumnView::Utf8(v@.map_values(|s: String| s@)),
            ColumnData::Boolean(v) => ColumnView::Boolean(v@),
            ColumnData::Decimal128(v) => ColumnView::Decimal128(v@),
            ColumnData::TimestampMillisecond(v) => ColumnView::TimestampMillisecond(v@),
        }
    }
}

/// The type of the values of a column, where the column's type alone says
/// it. For a decimal column it does not: the scale comes with the values.
pub open spec fn data_type_of(pg_type: PgType) -> Option<DataType> {
    match pg_type {
        PgType::Int2 => Some(DataType::Int16),
        PgType::Int4 => Some(DataType::Int32),
        PgType::Int8 => Some(DataType::Int64),
        PgType::Float4 => Some(DataType::Float32),
        PgType::Float8 => Some(DataType::Float64),
        PgType::Text => Some(DataType::Utf8),
        PgType::Bool => Some(DataType::Boolean),
        PgType::Timestamp => Some(DataType::TimestampMillisecond),
        PgType::Numeric => None,
        PgType::Other => None,
    }
}

/// The type of the values of a column, where the column's type alone says
/// it: `None` for a decimal column.
pub fn map_column_type_to_data_type(column_type: &PgType) -> (r: Option<DataType>)
    requires
        *column_type != PgType::Other,
    ensures
        r == data_type_of(*column_type),
{
    match column_type {
        PgType::Int2 => Some(DataType::Int16),
        PgType::Int4 => Some(DataType::Int32),
        PgType::Int8 => Some(DataType::Int64),
        PgType::Float4 => Some(DataType::Float32),
        PgType::Float8 => Some(DataType::Float64),
        PgType::Text => Some(DataType::Utf8),
        PgType::Bool => Some(DataType::Boolean),
        PgType::Timestamp => Some(DataType::TimestampMillisecond),
        PgType::Numeric => None,
        PgType::Other => None,
    }
}

/// Whether a value is one of a column of the given type.
pub open spec fn fits(pg_type: PgType, value: PgValue) -> bool {
    match pg_type {
        PgType::Int2 => value is Int2,
        PgType::Int4 => value is Int4,
        PgType::Int8 => value is Int8,
        PgType::Float4 => value is Float4,
        PgType::Float8 => value is Float8,
        PgType::Text => value is Text,
        PgType::Bool => value is Bool,
        PgType::Numeric => value matches PgValue::Numeric(d) && d.wf(),
        PgType::Timestamp => value is Timestamp,
        PgType::Other => false,
    }
}

/// Whether the rows are rows of the columns: each row has one value for each
/// column, of the column's type.
pub open spec fn well_typed(columns: Seq<PgColumn>, rows: Seq<Vec<PgValue>>) -> bool {
    &&& forall|r: int| 0 <= r < rows.len() ==> (#[trigger] rows[r])@.len() == columns.len()
    &&& forall|r: int, i: int|
        0 <= r < rows.len() && 0 <= i < columns.len() ==> fits(
            columns[i].pg_type,
            #[trigger] rows[r]@[i],
        )
}

/// Whether a value cannot be stored in a column: a decimal number that does
/// not fit into 128 bits, or a timestamp whose milliseconds do not fit into
/// 64 bits.
pub open spec fn cell_fails(value: PgValue) -> bool {
    match value {
        PgValue::Numeric(d) => d.as_decimal_128() is None,
        PgValue::Timestamp(Some(ms)) => ms > i64::MAX,
        _ => false,
    }
}

/// Whether `error` is the failure of a value that cannot be stored.
pub open spec fn is_failure_of(value: PgValue, error: Error) -> bool {
    match value {
        PgValue::Numeric(d) => error matches Error::FailedToConvertBigDecmialToI128 { big_decimal }
            && big_decimal@ == decimal_text_of(d.inner),
        PgValue::Timestamp(_) => error is FailedToConvertU128toI64,
        _ => false,
    }
}

/// Whether the value of row `r1` and column `i1` is read before that of row
/// `r2` and column `i2`: rows are read first to last, and each row column by
/// column.
pub open spec fn read_before(r1: int, i1: int, r2: int, i2: int) -> bool {
    r1 < r2 || (r1 == r2 && i1 < i2)
}

/// Whether the value of row `r` and column `i` is the first that cannot be
/// stored.
pub open spec fn first_failure_at(width: int, rows: Seq<Vec<PgValue>>, r: int, i: int) -> bool {
    &&& 0 <= r < rows.len()
    &&& 0 <= i < width
    &&& cell_fails(rows[r]@[i])
    &&& forall|r2: int, i2: int|
        0 <= r2 < rows.len() && 0 <= i2 < width && read_before(r2, i2, r, i) ==> !cell_fails(
            #[trigger] rows[r2]@[i2],
        )
}

/// Whether every value can be stored.
pub open spec fn no_failure(width: int, rows: Seq<Vec<PgValue>>) -> bool {
    forall|r: int, i: int|
        0 <= r < rows.len() && 0 <= i < width ==> !cell_fails(#[trigger] rows[r]@[i])
}

/// The milliseconds of the timestamps that are there, in their order. An
/// absent timestamp leaves no value behind.
pub open spec fn present_millis(values: Seq<PgValue>) -> Seq<i64>
    decreases values.len(),
{
    if values.len() == 0 {
        Seq::empty()
    } else {
        match values.last() {
            PgValue::Timestamp(Some(ms)) => present_millis(values.drop_last()).push(ms as i64),
            _ => present_millis(values.drop_last()),
        }
    }
}

/// The scale of a decimal column, taken from a scale that came with a
/// value. A scale beyond the range of the column type counts as zero.
pub open spec fn column_scale(scale: u16) -> i8 {
    if scale <= 127 {
        scale as i8
    } else {
        0
    }
}

/// The type of the values of a column. The scale of a decimal column is
/// that of its first value; its precision is 38.
pub open spec fn column_type(pg_type: PgType, first: PgValue) -> DataType {
    match pg_type {
        PgType::Numeric => DataType::Decimal128(38, column_scale(first->Numeric_0.scale)),
        _ => data_type_of(pg_type)->0,
    }
}

/// The values of column `i`, first row to last.
pub open spec fn cells(rows: Seq<Vec<PgValue>>, i: int) -> Seq<PgValue> {
    Seq::new(rows.len(), |r: int| rows[r]@[i])
}

/// The values of a column of a batch, given the values of the rows.
pub open spec fn column_of(pg_type: PgType, values: Seq<PgValue>) -> ColumnView {
    match pg_type {
        PgType::Int2 => ColumnView::Int16(Seq::new(values.len(), |r: int| values[r]->Int2_0)),
        PgType::Int4 => ColumnView::Int32(Seq::new(values.len(), |r: int| values[r]->Int4_0)),
        PgType::Int8 => ColumnView::Int64(Seq::new(values.len(), |r: int| values[r]->Int8_0)),
        PgType::Float4 => ColumnView::Float32(
            Seq::new(values.len(), |r: int| values[r]->Float4_0),
        ),
        PgType::Float8 => ColumnView::Float64(
            Seq::new(values.len(), |r: int| values[r]->Float8_0),
        ),
        PgType::Text => ColumnView::Utf8(Seq::new(values.len(), |r: int| values[r]->Text_0@)),
        PgType::Bool => ColumnView::Boolean(Seq::new(values.len(), |r: int| values[r]->Bool_0)),
        PgType::Numeric => ColumnView::Decimal128(
            Seq::new(values.len(), |r: int| values[r]->Numeric_0.as_decimal_128()->0),
        ),
        PgType::Timestamp => ColumnView::TimestampMillisecond(present_millis(values)),
        PgType::Other => ColumnView::Boolean(Seq::empty()),
    }
}

/// Looks for the first value that cannot be stored, reading the rows first
/// to last and each row column by column.
fn check_cells(width: usize, rows: &Vec<Vec<PgValue>>, Ghost(columns): Ghost<Seq<PgColumn>>) -> (r:
    Result<(), Error>)
    requires
        width == columns.len(),
        well_typed(columns, rows@),
    ensures
        match r {
            Ok(_) => no_failure(width as int, rows@),
            Err(e) => exists|row: int, i: int| #[trigger]
                first_failure_at(width as int, rows@, row, i) && is_failure_of(rows@[row]@[i], e),
        },
{
    let mut row: usize = 0;
    while row < rows.len()
        invariant
            row <= rows@.len(),
            width == columns.len(),
            well_typed(columns, rows@),
            forall|r2: int, i2: int|
                0 <= r2 < row && 0 <= i2 < width ==> !cell_fails(#[trigger] rows@[r2]@[i2]),
        decreases rows@.len() - row,
    {
        let values = &rows[row];
        assert(values@.len() == width);
        let mut i: usize = 0;
        while i < width
            invariant
                i <= width,
                row < rows@.len(),
                values@ == rows@[row as int]@,
                values@.len() == width,
                width == columns.len(),
                well_typed(columns, rows@),
                forall|r2: int, i2: int|
                    0 <= r2 < row && 0 <= i2 < width ==> !cell_fails(#[trigger] rows@[r2]@[i2]),
                forall|i2: int| 0 <= i2 < i ==> !cell_fails(#[trigger] rows@[row as int]@[i2]),
            decreases width - i,
        {
            assert(fits(columns[i as int].pg_type, rows@[row as int]@[i as int]));
            match &values[i] {
                PgValue::Numeric(d) => {
                    if d.to_decimal_128().is_none() {
                        let e = Error::FailedToConvertBigDecmialToI128 { big_decimal: d.text() };
                        proof {
                            assert(first_failure_at(width as int, rows@, row as int, i as int));
                        }
                        return Err(e);
                    }
                },
                PgValue::Timestamp(Some(ms)) => {
                    if *ms > i64::MAX as u128 {
                        proof {
                            assert(first_failure_at(width as int, rows@, row as int, i as int));
                        }
                        return Err(Error::FailedToConvertU128toI64);
                    }
                },
                _ => {},
            }
            i += 1;
        }
        row += 1;
    }
    Ok(())
}

/// A column of the given type without values.
fn empty_column(pg_type: PgType) -> (r: ColumnData)
    requires
        pg_type != PgType::Other,
    ensures
        r@ == column_of(pg_type, Seq::<PgValue>::empty()),
{
    let column = match pg_type {
        PgType::Int2 => ColumnData::Int16(Vec::new()),
        PgType::Int4 => ColumnData::Int32(Vec::new()),
        PgType::Int8 => ColumnData::Int64(Vec::new()),
        PgType::Float4 => ColumnData::Float32(Vec::new()),
        PgType::Float8 => ColumnData::Float64(Vec::new()),
        PgType::Text => ColumnData::Utf8(Vec::new()),
        PgType::Bool => ColumnData::Boolean(Vec::new()),
        PgType::Numeric => ColumnData::Decimal128(Vec::new()),
        PgType::Timestamp => ColumnData::TimestampMillisecond(Vec::new()),
        PgType::Other => ColumnData::Boolean(Vec::new()),
    };
    proof {
        match column@ {
            ColumnView::Int16(v) => assert(v =~= Seq::new(0, |r: int| Seq::<PgValue>::empty()[r]->Int2_0)),
            ColumnView::Int32(v) => assert(v =~= Seq::new(0, |r: int| Seq::<PgValue>::empty()[r]->Int4_0)),
            ColumnView::Int64(v) => assert(v =~= Seq::new(0, |r: int| Seq::<PgValue>::empty()[r]->Int8_0)),
            ColumnView::Float32(v) => assert(v =~= Seq::new(0, |r: int| Seq::<PgValue>::empty()[r]->Float4_0)),
            ColumnView::Float64(v) => assert(v =~= Seq::new(0, |r: int| Seq::<PgValue>::empty()[r]->Float8_0)),
            ColumnView::Utf8(v) => assert(v =~= Seq::new(0, |r: int| Seq::<PgValue>::empty()[r]->Text_0@)),
            ColumnView::Boolean(v) => assert(v =~= Seq::new(0, |r: int| Seq::<PgValue>::empty()[r]->Bool_0)),
            ColumnView::Decimal128(v) => assert(v =~= Seq::new(
                0,
                |r: int| Seq::<PgValue>::empty()[r]->Numeric_0.as_decimal_128()->0,
            )),
            ColumnView::TimestampMillisecond(v) => assert(v =~= present_millis(
                Seq::<PgValue>::empty(),
            )),
        }
    }
    column
}

/// The column after one more value of a row: with the value at its end, or
/// as it was where the value is an absent timestamp.
fn with_value(column: ColumnData, value: &PgValue, Ghost(pg_type): Ghost<PgType>, Ghost(
    before,
): Ghost<Seq<PgValue>>) -> (r: ColumnData)
    requires
        fits(pg_type, *value),
        !cell_fails(*value),
        column@ == column_of(pg_type, before),
    ensures
        r@ == column_of(pg_type, before.push(*value)),
{
    let ghost after = before.push(*value);
    match (column, value) {
        (ColumnData::Int16(mut v), PgValue::Int2(x)) => {
            v.push(*x);
            assert(v@ =~= Seq::new(after.len(), |r: int| after[r]->Int2_0));
            ColumnData::Int16(v)
        },
        (ColumnData::Int32(mut v), PgValue::Int4(x)) => {
            v.push(*x);
            assert(v@ =~= Seq::new(after.len(), |r: int| after[r]->Int4_0));
            ColumnData::Int32(v)
        },
        (ColumnData::Int64(mut v), PgValue::Int8(x)) => {
            v.push(*x);
            assert(v@ =~= Seq::new(after.len(), |r: int| after[r]->Int8_0));
            ColumnData::Int64(v)
        },
        (ColumnData::Float32(mut v), PgValue::Float4(x)) => {
            v.push(*x);
            assert(v@ =~= Seq::new(after.len(), |r: int| after[r]->Float4_0));
            ColumnData::Float32(v)
        },
        (ColumnData::Float64(mut v), PgValue::Float8(x)) => {
            v.push(*x);
            assert(v@ =~= Seq::new(after.len(), |r: int| after[r]->Float8_0));
            ColumnData::Float64(v)
        },
        (ColumnData::Utf8(mut v), PgValue::Text(x)) => {
            let ghost texts = v@.map_values(|s: String| s@);
            v.push(x.clone());
            assert(v@.map_values(|s: String| s@) =~= texts.push(x@));
            assert(v@.map_values(|s: String| s@) =~= Seq::new(
                after.len(),
                |r: int| after[r]->Text_0@,
            ));
            ColumnData::Utf8(v)
        },
        (ColumnData::Boolean(mut v), PgValue::Bool(x)) => {
            v.push(*x);
            assert(v@ =~= Seq::new(after.len(), |r: int| after[r]->Bool_0));
            ColumnData::Boolean(v)
        },
        (ColumnData::Decimal128(mut v), PgValue::Numeric(d)) => {
            match d.to_decimal_128() {
                Some(x) => {
                    v.push(x);
                },
                None => {},
            }
            assert(v@ =~= Seq::new(
                after.len(),
                |r: int| after[r]->Numeric_0.as_decimal_128()->0,
            ));
            ColumnData::Decimal128(v)
        },
        (ColumnData::TimestampMillisecond(mut v), PgValue::Timestamp(at)) => {
            proof {
                assert(after.drop_last() =~= before);
            }
            match at {
                Some(ms) => {
                    v.push(*ms as i64);
                },
                None => {},
            }
            ColumnData::TimestampMillisecond(v)
        },
        (column, _) => {
            assert(false);
            column
        },
    }
}

/// The values of column `i` as a column of a batch.
fn build_column(i: usize, rows: &Vec<Vec<PgValue>>, pg_type: PgType, Ghost(columns): Ghost<
    Seq<PgColumn>,
>) -> (r: ColumnData)
    requires
        i < columns.len(),
        pg_type == columns[i as int].pg_type,
        rows@.len() > 0,
        well_typed(columns, rows@),
        no_failure(columns.len() as int, rows@),
    ensures
        r@ == column_of(pg_type, cells(rows@, i as int)),
{
    proof {
        assert(fits(pg_type, rows@[0]@[i as int]));
    }
    let mut column = empty_column(pg_type);
    let mut row: usize = 0;
    proof {
        assert(cells(rows@, i as int).take(0) =~= Seq::<PgValue>::empty());
    }
    while row < rows.len()
        invariant
            row <= rows@.len(),
            i < columns.len(),
            pg_type == columns[i as int].pg_type,
            pg_type != PgType::Other,
            well_typed(columns, rows@),
            no_failure(columns.len() as int, rows@),
                column@ == column_of(pg_type, cells(rows@, i as int).take(row as int)),
        decreases rows@.len() - row,
    {
        let ghost before = cells(rows@, i as int).take(row as int);
        assert(rows@[row as int]@.len() == columns.len());
        let value = &rows[row][i];
        proof {
            assert(fits(pg_type, rows@[row as int]@[i as int]));
            assert(!cell_fails(rows@[row as int]@[i as int]));
            assert(cells(rows@, i as int).take(row + 1) =~= before.push(*value));
        }
        column = with_value(column, value, Ghost(pg_type), Ghost(before));
        row += 1;
    }
    proof {
        assert(cells(rows@, i as int).take(rows@.len() as int) =~= cells(rows@, i as int));
    }
    column
}

/// Whether a field is the one of a column whose first value is `first`: it
/// has the column's name and type, and admits absent values.
pub open spec fn is_field_of(field: Field, column: PgColumn, first: PgValue) -> bool {
    &&& field.name@ == column.name@
    &&& field.data_type == column_type(column.pg_type, first)
    &&& field.nullable
}

/// Whether a table holds the given rows, column by column.
pub open spec fn holds(table: Table, columns: Seq<PgColumn>, rows: Seq<Vec<PgValue>>) -> bool {
    &&& table.row_count == rows.len()
    &&& table.fields@.len() == columns.len()
    &&& table.columns@.len() == columns.len()
    &&& forall|i: int|
        0 <= i < columns.len() ==> is_field_of(#[trigger] table.fields@[i], columns[i], rows[0]@[i])
    &&& forall|i: int|
        0 <= i < columns.len() ==> (#[trigger] table.columns@[i])@ == column_of(
            columns[i].pg_type,
            cells(rows, i),
        )
}

/// Whether a failure is the one that the rows call for: that of the first
/// value that cannot be stored.
pub open spec fn is_failure_for(error: Error, width: int, rows: Seq<Vec<PgValue>>) -> bool {
    exists|row: int, i: int| #[trigger]
        first_failure_at(width, rows, row, i) && is_failure_of(rows[row]@[i], error)
}

/// The type of the values of a column whose first value is `first`.
fn field_type(pg_type: PgType, first: &PgValue) -> (r: DataType)
    requires
        fits(pg_type, *first),
    ensures
        r == column_type(pg_type, *first),
{
    match map_column_type_to_data_type(&pg_type) {
        Some(data_type) => data_type,
        None => match first {
            PgValue::Numeric(d) => {
                let scale = d.scale();
                let column_scale: i8 = if scale <= 127 {
                    scale as i8
                } else {
                    0
                };
                DataType::Decimal128(38, column_scale)
            },
            _ => {
                assert(false);
                DataType::Boolean
            },
        },
    }
}

/// Turns the rows of a result into the columns of a batch.
///
/// Without rows the table has no columns. Otherwise it has one column for
/// each column of the result, with the result's names; the types are those
/// of `column_type`, and the values those of the rows in their order. An
/// absent timestamp leaves no value in its column, so such a column is
/// shorter than the table has rows; whoever builds a batch from the table
/// learns that from the builder.
///
/// The rows are read first to last, each column by column, and the first
/// value that cannot be stored is the failure.
pub fn rows_to_arrow(columns: &Vec<PgColumn>, rows: &Vec<Vec<PgValue>>) -> (r: Result<Table, Error>)
    requires
        well_typed(columns@, rows@),
    ensures
        rows@.len() == 0 ==> (r matches Ok(table) && table.fields@.len() == 0
            && table.columns@.len() == 0 && table.row_count == 0),
        rows@.len() > 0 ==> match r {
            Ok(table) => no_failure(columns@.len() as int, rows@) && holds(table, columns@, rows@),
            Err(error) => is_failure_for(error, columns@.len() as int, rows@),
        },
{
    if rows.len() == 0 {
        return Ok(Table { fields: Vec::new(), columns: Vec::new(), row_count: 0 });
    }
    let width = columns.len();
    match check_cells(width, rows, Ghost(columns@)) {
        Ok(_) => {},
        Err(e) => {
            return Err(e);
        },
    }
    let first = &rows[0];
    assert(first@.len() == width);
    let mut fields: Vec<Field> = Vec::new();
    let mut data: Vec<ColumnData> = Vec::new();
    let mut i: usize = 0;
    while i < width
        invariant
            i <= width,
            width == columns@.len(),
            rows@.len() > 0,
            first@ == rows@[0]@,
            first@.len() == width,
            well_typed(columns@, rows@),
            no_failure(width as int, rows@),
            fields@.len() == i,
            data@.len() == i,
            forall|j: int|
                0 <= j < i ==> is_field_of(#[trigger] fields@[j], columns@[j], rows@[0]@[j]),
            forall|j: int|
                0 <= j < i ==> (#[trigger] data@[j])@ == column_of(
                    columns@[j].pg_type,
                    cells(rows@, j),
                ),
        decreases width - i,
    {
        let column = &columns[i];
        assert(fits(column.pg_type, rows@[0]@[i as int]));
        fields.push(
            Field {
                name: column.name.clone(),
                data_type: field_type(column.pg_type, &first[i]),
                nullable: true,
            },
        );
        data.push(build_column(i, rows, column.pg_type, Ghost(columns@)));
        i += 1;
    }
    Ok(Table { fields, columns: data, row_count: rows.len() })
}

} // verus!
