//! Listing the catalogs of the query engine.
//!
//! The answer comes in two phases. A request for information is answered
//! with a ticket that holds the whole command, without asking the engine.
//! Redeeming the ticket lists the catalogs that the engine has at that
//! moment. Nothing is kept between the two, so a ticket can be redeemed any
//! number of times, by any server, and each redemption shows the catalogs of
//! its own moment.
use vstd::prelude::*;
use vstd::string::*;
use crate::descriptor::FlightDescriptor;
use crate::descriptor::FlightEndpoint;
use crate::descriptor::FlightInfo;
use crate::descriptor::Ticket;
use crate::envelope::any_decoding;
use crate::envelope::any_encoding;
use crate::envelope::decode_any;
use crate::envelope::encode_any;
use crate::envelope::get_catalogs_decoding;
use crate::envelope::get_catalogs_url;
use crate::envelope::pack_get_catalogs;
use crate::envelope::unpack_get_catalogs;
use crate::envelope::unpacked_from;
use crate::envelope::Unpacked;
use crate::error::fails_with;
use crate::error::ErrorKind;
use crate::error::FlightError;
use crate::text::prefixed;

verus! {

/// The command that asks for the list of catalogs. It has no fields.
#[derive(Clone, Copy, Debug, PartialEq, Eq, Structural)]
pub struct CommandGetCatalogs {}

/// The commands that travel in descriptors and tickets.
#[derive(Clone, Copy, Debug, PartialEq, Eq, Structural)]
pub enum Command {
    GetCatalogs(CommandGetCatalogs),
}

/// The catalogs of the engine as one batch with a single column of strings,
/// one row for each catalog.
#[derive(Clone, Debug)]
pub struct CatalogBatch {
    pub column: String,
    pub names: Vec<String>,
}

impl CatalogBatch {
    /// How many rows the batch has.
    pub fn num_rows(&self) -> (r: usize)
        ensures
            r == self.names@.len(),
    {
        self.names.len()
    }
}

/// The ticket for the list of catalogs: the envelope of the command.
pub open spec fn catalogs_ticket() -> Seq<u8> {
    any_encoding(get_catalogs_url(), Seq::<u8>::empty())
}

pub open spec fn undecodable_command_message() -> Seq<char> {
    "Unable to decode the command."@
}

pub open spec fn malformed_get_catalogs_message() -> Seq<char> {
    "Unable to decode CommandGetCatalogs."@
}

pub open spec fn unknown_command_message(type_url: Seq<char>) -> Seq<char> {
    "Unknown command type: "@ + type_url
}

/// What the bytes of a descriptor or ticket come to: a command, or the
/// message of the `InvalidRequest` that rejects them.
pub open spec fn routed_command(bytes: Seq<u8>) -> Result<Command, Seq<char>> {
    match any_decoding(bytes) {
        None => Err(undecodable_command_message()),
        Some((type_url, value)) => if type_url == get_catalogs_url() {
            if get_catalogs_decoding(value) {
                Ok(Command::GetCatalogs(CommandGetCatalogs {  }))
            } else {
                Err(malformed_get_catalogs_message())
            }
        } else {
            Err(unknown_command_message(type_url))
        },
    }
}

/// The command that an unpacked envelope holds. `type_url` is the type that
/// the envelope names; an envelope of another type is rejected by that name.
pub fn command_from(unpacked: Unpacked<()>, type_url: &str) -> (r: Result<Command, FlightError>)
    ensures
        match unpacked {
            Unpacked::Message(_) => r == Ok::<Command, FlightError>(
                Command::GetCatalogs(CommandGetCatalogs {  }),
            ),
            Unpacked::Malformed => fails_with(
                r,
                ErrorKind::InvalidRequest,
                malformed_get_catalogs_message(),
            ),
            Unpacked::OtherType => fails_with(
                r,
                ErrorKind::InvalidRequest,
                unknown_command_message(type_url@),
            ),
        },
{
    match unpacked {
        Unpacked::Message(_) => Ok(Command::GetCatalogs(CommandGetCatalogs {  })),
        Unpacked::Malformed => Err(
            FlightError::new(
                ErrorKind::InvalidRequest,
                "Unable to decode CommandGetCatalogs.".to_owned(),
            ),
        ),
        Unpacked::OtherType => Err(
            FlightError::new(
                ErrorKind::InvalidRequest,
                prefixed("Unknown command type: ", type_url),
            ),
        ),
    }
}

/// Reads the command in the bytes of a descriptor or of a ticket. Bytes that
/// are no envelope, an envelope of an unknown type (which the failure names)
/// and an envelope whose value is not the command it names are each an
/// `InvalidRequest`.
pub fn decode_command(bytes: &[u8]) -> (r: Result<Command, FlightError>)
    ensures
        match routed_command(bytes@) {
            Ok(command) => r == Ok::<Command, FlightError>(command),
            Err(message) => fails_with(r, ErrorKind::InvalidRequest, message),
        },
{
    match decode_any(bytes) {
        Err(_) => Err(
            FlightError::new(
                ErrorKind::InvalidRequest,
                "Unable to decode the command.".to_owned(),
            ),
        ),
        Ok(envelope) => command_from(
            unpacked_from(unpack_get_catalogs(&envelope)),
            envelope.type_url.as_str(),
        ),
    }
}

/// Answers a request for information about the list of catalogs: one
/// endpoint whose ticket is the envelope of the command, paired with the
/// descriptor of the request. The engine is not asked.
pub fn get_flight_info(query: &CommandGetCatalogs, descriptor: FlightDescriptor) -> (r: FlightInfo)
    ensures
        r.endpoint@.len() == 1,
        r.endpoint@[0].ticket matches Some(t) && t.ticket@ == catalogs_ticket(),
        r.endpoint@[0].location@.len() == 0,
        r.flight_descriptor == Some(descriptor),
        r.schema@.len() == 0,
        r.total_records == -1,
        r.total_bytes == -1,
        !r.ordered,
{
    let envelope = pack_get_catalogs();
    let ticket = Ticket { ticket: encode_any(&envelope) };
    let mut endpoint: Vec<FlightEndpoint> = Vec::new();
    endpoint.push(FlightEndpoint { ticket: Some(ticket), location: Vec::new() });
    FlightInfo {
        schema: Vec::new(),
        flight_descriptor: Some(descriptor),
        endpoint,
        total_records: -1,
        total_bytes: -1,
        ordered: false,
    }
}

/// Lists the catalogs: one row for each name that the engine reported, in
/// the engine's order, in the single column `catalog_name`.
pub fn do_get(query: CommandGetCatalogs, catalog_names: Vec<String>) -> (r: CatalogBatch)
    ensures
        r.column@ == "catalog_name"@,
        r.names == catalog_names,
{
    CatalogBatch { column: "catalog_name".to_owned(), names: catalog_names }
}

/// Redeems a ticket against the catalogs that the engine has now. A ticket
/// that holds the command gives the batch of `do_get`; any other is an
/// `InvalidRequest`, as `decode_command` says.
pub fn redeem(ticket: &[u8], catalog_names: Vec<String>) -> (r: Result<CatalogBatch, FlightError>)
    ensures
        match routed_command(ticket@) {
            Ok(_) => r matches Ok(batch) && batch.column@ == "catalog_name"@ && batch.names
                == catalog_names,
            Err(message) => fails_with(r, ErrorKind::InvalidRequest, message),
        },
{
    match decode_command(ticket)? {
        Command::GetCatalogs(query) => Ok(do_get(query, catalog_names)),
    }
}

/// A redemption shows the catalogs of its own moment: with a catalog added
/// between two redemptions, the second has one row more than the first.
pub proof fn lemma_catalogs_are_not_cached(before: Seq<String>, added: String)
    ensures
        before.push(added).len() == before.len() + 1,
        before.push(added).len() != before.len(),
        before.push(added).take(before.len() as int) == before,
{
}

} // verus!
