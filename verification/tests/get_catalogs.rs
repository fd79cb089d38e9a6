use arrow_flight::sql::Any;
use arrow_flight::sql::CommandGetCatalogs as WireGetCatalogs;
use arrow_flight::sql::CommandStatementQuery;
use arrow_flight::sql::ProstMessageExt;
use prost::Message;
use spice_runtime::descriptor::DescriptorType;
use spice_runtime::descriptor::FlightDescriptor;
use spice_runtime::error::ErrorKind;
use spice_runtime::get_catalogs::decode_command;
use spice_runtime::get_catalogs::do_get;
use spice_runtime::get_catalogs::get_flight_info;
use spice_runtime::get_catalogs::redeem;
use spice_runtime::get_catalogs::Command;
use spice_runtime::get_catalogs::CommandGetCatalogs;

fn ticket() -> Vec<u8> {
    let info = get_flight_info(&CommandGetCatalogs {}, FlightDescriptor::new_cmd(vec![1]));
    info.endpoint[0].ticket.clone().unwrap().ticket
}

#[test]
fn flight_info_holds_the_whole_command() {
    let descriptor = FlightDescriptor::new_cmd(vec![9, 9]);
    let info = get_flight_info(&CommandGetCatalogs {}, descriptor);
    assert_eq!(info.endpoint.len(), 1);
    assert!(info.endpoint[0].location.is_empty());
    let fd = info.flight_descriptor.unwrap();
    assert_eq!(fd.kind, DescriptorType::Cmd);
    assert_eq!(fd.cmd, vec![9, 9]);
    assert_eq!(info.total_records, -1);
    assert_eq!(info.total_bytes, -1);
    assert!(!info.ordered);
    assert!(info.schema.is_empty());
    let bytes = info.endpoint[0].ticket.clone().unwrap().ticket;
    assert_eq!(bytes, WireGetCatalogs {}.as_any().encode_to_vec());
    let any = Any::decode(bytes.as_slice()).unwrap();
    assert!(any.is::<WireGetCatalogs>());
    assert_eq!(decode_command(&bytes).unwrap(), Command::GetCatalogs(CommandGetCatalogs {}));
}

#[test]
fn redemption_shows_the_catalogs_of_its_moment() {
    let t = ticket();
    let first = redeem(&t, vec!["datafusion".to_string()]).unwrap();
    let second = redeem(&t, vec!["datafusion".to_string(), "spice".to_string()]).unwrap();
    assert_eq!(first.num_rows(), 1);
    assert_eq!(second.num_rows(), 2);
    assert_eq!(second.column, "catalog_name");
    assert_eq!(second.names, vec!["datafusion".to_string(), "spice".to_string()]);
    let again = redeem(&t, vec![]).unwrap();
    assert_eq!(again.num_rows(), 0);
}

#[test]
fn catalogs_keep_the_order_of_the_engine() {
    let batch = do_get(CommandGetCatalogs {}, vec!["b".to_string(), "a".to_string()]);
    assert_eq!(batch.names, vec!["b".to_string(), "a".to_string()]);
}

#[test]
fn unknown_commands_are_named_in_the_failure() {
    let query = CommandStatementQuery { query: "select 1".to_string(), transaction_id: None };
    let err = decode_command(&query.as_any().encode_to_vec()).unwrap_err();
    assert_eq!(err.kind, ErrorKind::InvalidRequest);
    assert_eq!(
        err.message,
        "Unknown command type: type.googleapis.com/arrow.flight.protocol.sql.CommandStatementQuery"
    );
    let err = redeem(&[0xff, 0xff], vec![]).unwrap_err();
    assert_eq!(err.kind, ErrorKind::InvalidRequest);
    assert_eq!(err.message, "Unable to decode the command.");
    let malformed = Any {
        type_url: "type.googleapis.com/arrow.flight.protocol.sql.CommandGetCatalogs".to_string(),
        value: vec![0x0a, 0x05, b'a'].into(),
    };
    let err = decode_command(&malformed.encode_to_vec()).unwrap_err();
    assert_eq!(err.message, "Unable to decode CommandGetCatalogs.");
}
