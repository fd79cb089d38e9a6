//! The self-describing envelope in which commands travel: a type URL that
//! names the command and the bytes of the command itself.
//!
//! The envelope and the commands in it are protocol-buffer messages. Their
//! binary form is produced and read by `prost` and `arrow_flight`; the
//! functions here that call them are trusted, and each says so.
use vstd::prelude::*;
use arrow_flight::sql::Any;
use arrow_flight::sql::ActionClosePreparedStatementRequest;
use arrow_flight::sql::ActionCreatePreparedStatementRequest;
use arrow_flight::sql::ActionCreatePreparedStatementResult;
use arrow_flight::sql::CommandGetCatalogs;
use arrow_flight::sql::ProstMessageExt;
use prost::Message;

verus! {

/// `prost`'s error for bytes that are no message. It is passed on unread.
#[verifier::external_type_specification]
#[verifier::external_body]
pub struct ExDecodeError(prost::DecodeError);

/// `arrow`'s error type. It is passed on unread.
#[verifier::external_type_specification]
#[verifier::external_body]
pub struct ExArrowError(arrow::error::ArrowError);

/// A decoded envelope: which command it carries, and the command's bytes.
#[derive(Clone, Debug)]
pub struct Envelope {
    pub type_url: String,
    pub value: Vec<u8>,
}

/// A request to create a prepared statement.
#[derive(Clone, Debug)]
pub struct CreateStatementRequest {
    pub query: String,
    pub transaction_id: Option<Vec<u8>>,
}

/// A request to close a prepared statement.
#[derive(Clone, Debug)]
pub struct CloseStatementRequest {
    pub handle: Vec<u8>,
}

/// The outcome of looking into an envelope for one kind of command.
#[derive(Clone, Debug)]
pub enum Unpacked<T> {
    /// The envelope carries another kind of command.
    OtherType,
    /// The envelope names this kind, but its bytes are not such a command.
    Malformed,
    /// The command.
    Message(T),
}

/// Sorts the three outcomes of unpacking into one value.
pub fn unpacked_from<T>(r: Result<Option<T>, arrow::error::ArrowError>) -> (u: Unpacked<T>)
    ensures
        match r {
            Ok(Some(m)) => u == Unpacked::Message(m),
            Ok(None) => u == Unpacked::<T>::OtherType,
            Err(_) => u == Unpacked::<T>::Malformed,
        },
{
    match r {
        Ok(Some(m)) => Unpacked::Message(m),
        Ok(None) => Unpacked::OtherType,
        Err(_) => Unpacked::Malformed,
    }
}

/// The view of an optional byte string.
pub open spec fn bytes_of(o: Option<Vec<u8>>) -> Option<Seq<u8>> {
    match o {
        Some(v) => Some(v@),
        None => None,
    }
}

pub open spec fn create_request_url() -> Seq<char> {
    "type.googleapis.com/arrow.flight.protocol.sql.ActionCreatePreparedStatementRequest"@
}

pub open spec fn close_request_url() -> Seq<char> {
    "type.googleapis.com/arrow.flight.protocol.sql.ActionClosePreparedStatementRequest"@
}

pub open spec fn create_result_url() -> Seq<char> {
    "type.googleapis.com/arrow.flight.protocol.sql.ActionCreatePreparedStatementResult"@
}

pub open spec fn get_catalogs_url() -> Seq<char> {
    "type.googleapis.com/arrow.flight.protocol.sql.CommandGetCatalogs"@
}

/// The envelope that `bytes` encode, as `(type URL, value)`, or `None` where
/// they encode none.
pub uninterp spec fn any_decoding(bytes: Seq<u8>) -> Option<(Seq<char>, Seq<u8>)>;

/// The bytes that encode an envelope with the given type URL and value.
pub uninterp spec fn any_encoding(type_url: Seq<char>, value: Seq<u8>) -> Seq<u8>;

/// The create-statement request that `value` encodes, as `(query,
/// transaction id)`, or `None` where it encodes none.
pub uninterp spec fn create_request_decoding(value: Seq<u8>) -> Option<(Seq<char>, Option<Seq<u8>>)>;

/// The handle of the close-statement request that `value` encodes, or `None`
/// where it encodes none.
pub uninterp spec fn close_request_decoding(value: Seq<u8>) -> Option<Seq<u8>>;

/// Whether `value` encodes a list-catalogs command.
pub uninterp spec fn get_catalogs_decoding(value: Seq<u8>) -> bool;

/// The bytes that encode the result of creating a prepared statement.
pub uninterp spec fn create_result_encoding(
    handle: Seq<u8>,
    dataset_schema: Seq<u8>,
    parameter_schema: Seq<u8>,
) -> Seq<u8>;

/// Trusted: `prost::Message::decode` on `arrow_flight::sql::Any`. The result
/// depends on the bytes alone: `any_decoding` names it. Decoding fails exactly
/// where the bytes encode no envelope.
#[verifier::external_body]
pub(crate) fn decode_any(bytes: &[u8]) -> (r: Result<Envelope, prost::DecodeError>)
    ensures
        match any_decoding(bytes@) {
            Some((type_url, value)) => r matches Ok(e) && e.type_url@ == type_url && e.value@
                == value,
            None => r is Err,
        },
{
    match Any::decode(bytes) {
        Ok(any) => Ok(Envelope { type_url: any.type_url, value: any.value.to_vec() }),
        Err(e) => Err(e),
    }
}

/// Trusted: `prost::Message::encode_to_vec` on `arrow_flight::sql::Any`. The
/// result depends on the envelope alone: `any_encoding` names it.
#[verifier::external_body]
pub(crate) fn encode_any(envelope: &Envelope) -> (r: Vec<u8>)
    ensures
        r@ == any_encoding(envelope.type_url@, envelope.value@),
{
    let any = Any { type_url: envelope.type_url.clone(), value: envelope.value.clone().into() };
    any.encode_to_vec()
}

/// Trusted: `arrow_flight::sql::Any::unpack` for a create-statement request.
/// It answers `Ok(None)` exactly where the type URL is not that of the
/// request; otherwise it decodes the value, which `create_request_decoding`
/// names, and fails where the value encodes no such request.
#[verifier::external_body]
pub(crate) fn unpack_create_request(envelope: &Envelope) -> (r: Result<
    Option<CreateStatementRequest>,
    arrow::error::ArrowError,
>)
    ensures
        envelope.type_url@ != create_request_url() ==> r matches Ok(None),
        envelope.type_url@ == create_request_url() ==> match create_request_decoding(
            envelope.value@,
        ) {
            Some((query, transaction_id)) => r matches Ok(Some(m)) && m.query@ == query
                && bytes_of(m.transaction_id) == transaction_id,
            None => r is Err,
        },
{
    let any = Any { type_url: envelope.type_url.clone(), value: envelope.value.clone().into() };
    let unpacked = any.unpack::<ActionCreatePreparedStatementRequest>()?;
    Ok(unpacked.map(|m| CreateStatementRequest {
        query: m.query,
        transaction_id: m.transaction_id.map(|b| b.to_vec()),
    }))
}

/// Trusted: `arrow_flight::sql::Any::unpack` for a close-statement request.
/// It answers `Ok(None)` exactly where the type URL is not that of the
/// request; otherwise it decodes the value, which `close_request_decoding`
/// names, and fails where the value encodes no such request.
#[verifier::external_body]
pub(crate) fn unpack_close_request(envelope: &Envelope) -> (r: Result<
    Option<CloseStatementRequest>,
    arrow::error::ArrowError,
>)
    ensures
        envelope.type_url@ != close_request_url() ==> r matches Ok(None),
        envelope.type_url@ == close_request_url() ==> match close_request_decoding(
            envelope.value@,
        ) {
            Some(handle) => r matches Ok(Some(m)) && m.handle@ == handle,
            None => r is Err,
        },
{
    let any = Any { type_url: envelope.type_url.clone(), value: envelope.value.clone().into() };
    let unpacked = any.unpack::<ActionClosePreparedStatementRequest>()?;
    Ok(unpacked.map(|m| CloseStatementRequest { handle: m.prepared_statement_handle.to_vec() }))
}

/// Trusted: `arrow_flight::sql::Any::unpack` for a list-catalogs command,
/// which has no fields. It answers `Ok(None)` exactly where the type URL is
/// not that of the command; otherwise it succeeds exactly where the value
/// encodes such a command, which `get_catalogs_decoding` names.
#[verifier::external_body]
pub(crate) fn unpack_get_catalogs(envelope: &Envelope) -> (r: Result<
    Option<()>,
    arrow::error::ArrowError,
>)
    ensures
        envelope.type_url@ != get_catalogs_url() ==> r matches Ok(None),
        envelope.type_url@ == get_catalogs_url() ==> (if get_catalogs_decoding(envelope.value@) {
            r matches Ok(Some(_))
        } else {
            r is Err
        }),
{
    let any = Any { type_url: envelope.type_url.clone(), value: envelope.value.clone().into() };
    let unpacked = any.unpack::<CommandGetCatalogs>()?;
    Ok(unpacked.map(|_m| ()))
}

/// Trusted: `ProstMessageExt::as_any` on a list-catalogs command. The command
/// has no fields, so its envelope is the command's type URL with an empty
/// value.
#[verifier::external_body]
pub(crate) fn pack_get_catalogs() -> (r: Envelope)
    ensures
        r.type_url@ == get_catalogs_url(),
        r.value@ == Seq::<u8>::empty(),
{
    let any = CommandGetCatalogs {}.as_any();
    Envelope { type_url: any.type_url, value: any.value.to_vec() }
}

/// Trusted: `ProstMessageExt::as_any` on the result of creating a prepared
/// statement. The envelope carries the result's type URL; its value depends
/// on the three fields alone, and `create_result_encoding` names it.
#[verifier::external_body]
pub(crate) fn pack_create_result(
    handle: &Vec<u8>,
    dataset_schema: &Vec<u8>,
    parameter_schema: &Vec<u8>,
) -> (r: Envelope)
    ensures
        r.type_url@ == create_result_url(),
        r.value@ == create_result_encoding(handle@, dataset_schema@, parameter_schema@),
{
    let result = ActionCreatePreparedStatementResult {
        prepared_statement_handle: handle.clone().into(),
        dataset_schema: dataset_schema.clone().into(),
        parameter_schema: parameter_schema.clone().into(),
    };
    let any = result.as_any();
    Envelope { type_url: any.type_url, value: any.value.to_vec() }
}

} // verus!
