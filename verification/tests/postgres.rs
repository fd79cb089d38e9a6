use std::sync::Arc;

use arrow::array::ArrayRef;
use arrow::array::Int32Array;
use arrow::array::RecordBatchOptions;
use arrow::array::TimestampMillisecondArray;
use arrow::datatypes::DataType as ArrowType;
use arrow::datatypes::Field;
use arrow::datatypes::Schema;
use arrow::datatypes::TimeUnit;
use arrow::record_batch::RecordBatch;
use spice_runtime::decimal::BigDecimalFromSql;
use spice_runtime::postgres::map_column_type_to_data_type;
use spice_runtime::postgres::rows_to_arrow;
use spice_runtime::postgres::ColumnData;
use spice_runtime::postgres::DataType;
use spice_runtime::postgres::Error;
use spice_runtime::postgres::PgColumn;
use spice_runtime::postgres::PgType;
use spice_runtime::postgres::PgValue;

fn column(name: &str, pg_type: PgType) -> PgColumn {
    PgColumn { name: name.to_string(), pg_type }
}

fn numeric(words: &[u16]) -> PgValue {
    let mut raw = Vec::new();
    for w in words {
        raw.push((w >> 8) as u8);
        raw.push((w & 0xff) as u8);
    }
    PgValue::Numeric(match BigDecimalFromSql::from_sql(&raw) {
        Ok(d) => d,
        Err(_) => panic!("malformed number"),
    })
}

#[test]
fn column_types_become_data_types() {
    assert_eq!(map_column_type_to_data_type(&PgType::Int2), Some(DataType::Int16));
    assert_eq!(map_column_type_to_data_type(&PgType::Int4), Some(DataType::Int32));
    assert_eq!(map_column_type_to_data_type(&PgType::Int8), Some(DataType::Int64));
    assert_eq!(map_column_type_to_data_type(&PgType::Float4), Some(DataType::Float32));
    assert_eq!(map_column_type_to_data_type(&PgType::Float8), Some(DataType::Float64));
    assert_eq!(map_column_type_to_data_type(&PgType::Text), Some(DataType::Utf8));
    assert_eq!(map_column_type_to_data_type(&PgType::Bool), Some(DataType::Boolean));
    assert_eq!(map_column_type_to_data_type(&PgType::Numeric), None);
    assert_eq!(
        map_column_type_to_data_type(&PgType::Timestamp),
        Some(DataType::TimestampMillisecond)
    );
}

#[test]
fn no_rows_make_an_empty_table() {
    let table = rows_to_arrow(&vec![column("a", PgType::Int4)], &vec![]).ok().unwrap();
    assert!(table.fields.is_empty());
    assert!(table.columns.is_empty());
    assert_eq!(table.row_count, 0);
}

#[test]
fn rows_become_columns() {
    let columns = vec![
        column("a", PgType::Int4),
        column("b", PgType::Text),
        column("c", PgType::Float8),
        column("d", PgType::Bool),
        column("e", PgType::Timestamp),
        column("f", PgType::Int2),
        column("g", PgType::Int8),
        column("h", PgType::Float4),
    ];
    let rows = vec![
        vec![
            PgValue::Int4(3),
            PgValue::Text("bar".to_string()),
            PgValue::Float8(1.5f64.to_bits()),
            PgValue::Bool(true),
            PgValue::Timestamp(Some(1_700_000_000_000)),
            PgValue::Int2(-2),
            PgValue::Int8(i64::MAX),
            PgValue::Float4(0.25f32.to_bits()),
        ],
        vec![
            PgValue::Int4(4),
            PgValue::Text("baz".to_string()),
            PgValue::Float8((-0.0f64).to_bits()),
            PgValue::Bool(false),
            PgValue::Timestamp(Some(0)),
            PgValue::Int2(7),
            PgValue::Int8(i64::MIN),
            PgValue::Float4(f32::NAN.to_bits()),
        ],
    ];
    let table = rows_to_arrow(&columns, &rows).ok().unwrap();
    assert_eq!(table.row_count, 2);
    let names: Vec<&str> = table.fields.iter().map(|f| f.name.as_str()).collect();
    assert_eq!(names, vec!["a", "b", "c", "d", "e", "f", "g", "h"]);
    assert!(table.fields.iter().all(|f| f.nullable));
    assert_eq!(table.fields[0].data_type, DataType::Int32);
    assert_eq!(table.fields[4].data_type, DataType::TimestampMillisecond);
    assert!(matches!(&table.columns[0], ColumnData::Int32(v) if v == &vec![3, 4]));
    assert!(matches!(&table.columns[1], ColumnData::Utf8(v) if v == &vec!["bar".to_string(), "baz".to_string()]));
    assert!(matches!(&table.columns[2], ColumnData::Float64(v) if f64::from_bits(v[0]) == 1.5 && v[1] == (-0.0f64).to_bits()));
    assert!(matches!(&table.columns[3], ColumnData::Boolean(v) if v == &vec![true, false]));
    assert!(matches!(&table.columns[4], ColumnData::TimestampMillisecond(v) if v == &vec![1_700_000_000_000, 0]));
    assert!(matches!(&table.columns[5], ColumnData::Int16(v) if v == &vec![-2, 7]));
    assert!(matches!(&table.columns[6], ColumnData::Int64(v) if v == &vec![i64::MAX, i64::MIN]));
    assert!(matches!(&table.columns[7], ColumnData::Float32(v) if f32::from_bits(v[0]) == 0.25 && f32::from_bits(v[1]).is_nan()));
}

#[test]
fn a_decimal_column_takes_its_scale_from_the_first_value() {
    let columns = vec![column("price", PgType::Numeric)];
    let rows = vec![
        vec![numeric(&[5, 3, 0, 5, 9345, 1293, 2903, 1293, 932])],
        vec![numeric(&[1, 0, 0x4000, 0, 12])],
    ];
    let table = rows_to_arrow(&columns, &rows).ok().unwrap();
    assert_eq!(table.fields[0].data_type, DataType::Decimal128(38, 5));
    assert!(matches!(&table.columns[0], ColumnData::Decimal128(v) if v == &vec![934512932903129309320_i128, -12]));
}

#[test]
fn the_first_value_that_cannot_be_stored_is_the_failure() {
    let columns = vec![column("t", PgType::Timestamp), column("n", PgType::Numeric)];
    // 10 digits of base 10000 before the point: 40 decimal digits
    let too_big = [10, 9, 0, 0, 9999, 9999, 9999, 9999, 9999, 9999, 9999, 9999, 9999, 9999];
    let rows = vec![
        vec![PgValue::Timestamp(None), numeric(&[1, 0, 0, 0, 1])],
        vec![PgValue::Timestamp(Some(1)), numeric(&too_big)],
        vec![PgValue::Timestamp(Some(u128::MAX)), numeric(&[1, 0, 0, 0, 1])],
    ];
    match rows_to_arrow(&columns, &rows) {
        Err(Error::FailedToConvertBigDecmialToI128 { big_decimal }) => {
            assert_eq!(big_decimal, "9999999999999999999999999999999999999999")
        }
        _ => panic!("stored a number of 40 digits"),
    }
    let rows = vec![
        vec![PgValue::Timestamp(Some(i64::MAX as u128 + 1)), numeric(&too_big)],
    ];
    assert!(matches!(rows_to_arrow(&columns, &rows), Err(Error::FailedToConvertU128toI64)));
    let rows = vec![
        vec![PgValue::Timestamp(Some(i64::MAX as u128)), numeric(&[1, 0, 0, 0, 1])],
    ];
    assert!(rows_to_arrow(&columns, &rows).is_ok());
}

#[test]
fn an_absent_timestamp_leaves_its_column_short() {
    let columns = vec![column("t", PgType::Timestamp), column("a", PgType::Int4)];
    let rows = vec![
        vec![PgValue::Timestamp(Some(5)), PgValue::Int4(1)],
        vec![PgValue::Timestamp(None), PgValue::Int4(2)],
        vec![PgValue::Timestamp(Some(7)), PgValue::Int4(3)],
    ];
    let table = rows_to_arrow(&columns, &rows).ok().unwrap();
    assert_eq!(table.row_count, 3);
    assert!(matches!(&table.columns[0], ColumnData::TimestampMillisecond(v) if v == &vec![5, 7]));
    assert!(matches!(&table.columns[1], ColumnData::Int32(v) if v == &vec![1, 2, 3]));

    // the batch builder refuses columns of different lengths
    let schema = Arc::new(Schema::new(vec![
        Field::new("t", ArrowType::Timestamp(TimeUnit::Millisecond, None), true),
        Field::new("a", ArrowType::Int32, true),
    ]));
    let t: ArrayRef = Arc::new(TimestampMillisecondArray::from(vec![5, 7]));
    let a: ArrayRef = Arc::new(Int32Array::from(vec![1, 2, 3]));
    let options = RecordBatchOptions::new().with_row_count(Some(table.row_count));
    assert!(RecordBatch::try_new_with_options(schema, vec![t, a], &options).is_err());
}
