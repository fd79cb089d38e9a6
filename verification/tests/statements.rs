use spice_runtime::error::ErrorKind;
use spice_runtime::error::StatusCode;
use spice_runtime::statements::decode_handle;
use spice_runtime::statements::encode_handle;
use spice_runtime::statements::PreparedStatement;
use spice_runtime::statements::StatementTable;

fn statement(query: &str) -> PreparedStatement {
    PreparedStatement { query: query.to_string(), dataset_schema: vec![] }
}

#[test]
fn handles_are_issued_in_order_and_never_again() {
    let mut table = StatementTable::new();
    assert_eq!(table.create(statement("a")).unwrap(), 0);
    assert_eq!(table.create(statement("b")).unwrap(), 1);
    assert!(table.close(0).is_ok());
    assert_eq!(table.create(statement("c")).unwrap(), 2);
    assert_eq!(table.resolve(0).unwrap_err().kind, ErrorKind::NotFound);
    assert_eq!(table.resolve(1).unwrap().query, "b");
    assert_eq!(table.resolve(2).unwrap().query, "c");
    assert_eq!(table.resolve(3).unwrap_err().kind, ErrorKind::NotFound);
    assert_eq!(table.live_count(), 2);
}

#[test]
fn closing_twice_fails_the_second_time() {
    let mut table = StatementTable::new();
    table.create(statement("a")).unwrap();
    assert!(table.close(0).is_ok());
    let err = table.close(0).unwrap_err();
    assert_eq!(err.kind, ErrorKind::NotFound);
    assert_eq!(err.message, "Prepared statement handle not found");
}

#[test]
fn handles_travel_as_eight_bytes() {
    assert_eq!(encode_handle(0x0102030405060708), vec![8, 7, 6, 5, 4, 3, 2, 1]);
    assert_eq!(decode_handle(&[8, 7, 6, 5, 4, 3, 2, 1]), Some(0x0102030405060708));
    assert_eq!(decode_handle(&encode_handle(u64::MAX)), Some(u64::MAX));
    assert_eq!(decode_handle(&[1, 2, 3]), None);
    assert_eq!(decode_handle(&[]), None);
    assert_eq!(decode_handle(&[0; 9]), None);
}

#[test]
fn kinds_of_failure_have_status_codes() {
    assert_eq!(ErrorKind::InvalidRequest.status_code(), StatusCode::InvalidArgument);
    assert_eq!(ErrorKind::UnknownDataset.status_code(), StatusCode::InvalidArgument);
    assert_eq!(ErrorKind::NotFound.status_code(), StatusCode::NotFound);
    assert_eq!(ErrorKind::PlanningFailure.status_code(), StatusCode::Internal);
    assert_eq!(ErrorKind::ExecutionFailure.status_code(), StatusCode::Internal);
    assert_eq!(ErrorKind::EncodingFailure.status_code(), StatusCode::Internal);
    assert_eq!(ErrorKind::InternalFailure.status_code(), StatusCode::Internal);
}
