//! The actions that clients may invoke, and how an action request is routed.
use vstd::prelude::*;
use vstd::string::*;
use crate::envelope::any_decoding;
use crate::envelope::any_encoding;
use crate::envelope::bytes_of;
use crate::envelope::close_request_decoding;
use crate::envelope::close_request_url;
use crate::envelope::create_request_decoding;
use crate::envelope::create_request_url;
use crate::envelope::create_result_encoding;
use crate::envelope::create_result_url;
use crate::envelope::decode_any;
use crate::envelope::encode_any;
use crate::envelope::pack_create_result;
use crate::envelope::unpack_close_request;
use crate::envelope::unpack_create_request;
use crate::envelope::unpacked_from;
use crate::envelope::CloseStatementRequest;
use crate::envelope::CreateStatementRequest;
use crate::envelope::Unpacked;
use crate::error::fails_with;
use crate::error::ErrorKind;
use crate::error::FlightError;
use crate::statements::bytes_of_handle;
use crate::statements::encode_handle;
use crate::statements::decode_handle;
use crate::statements::exhausted_message;
use crate::statements::handle_of;
use crate::statements::not_found_message;
use crate::statements::PreparedStatement;
use crate::statements::StatementTable;
use crate::text::prefixed;
use crate::text::same_text;

verus! {

/// The kinds of action the service knows. Anything else is `Unknown`.
#[derive(Clone, Copy, Debug, PartialEq, Eq, Structural)]
pub enum ActionType {
    CreatePreparedStatement,
    ClosePreparedStatement,
    Unknown,
}

/// The name under which each kind of action travels on the wire.
pub open spec fn name_of(kind: ActionType) -> Seq<char> {
    match kind {
        ActionType::CreatePreparedStatement => "CreatePreparedStatement"@,
        ActionType::ClosePreparedStatement => "ClosePreparedStatement"@,
        ActionType::Unknown => "Unknown"@,
    }
}

/// The kind of action that a wire name stands for.
pub open spec fn kind_named(name: Seq<char>) -> ActionType {
    if name == "CreatePreparedStatement"@ {
        ActionType::CreatePreparedStatement
    } else if name == "ClosePreparedStatement"@ {
        ActionType::ClosePreparedStatement
    } else {
        ActionType::Unknown
    }
}

impl ActionType {
    /// Classifies an action type string. Names are matched exactly; every
    /// other string is `Unknown`.
    pub fn from_str(s: &str) -> (r: ActionType)
        ensures
            r == kind_named(s@),
    {
        if same_text(s, "CreatePreparedStatement") {
            ActionType::CreatePreparedStatement
        } else if same_text(s, "ClosePreparedStatement") {
            ActionType::ClosePreparedStatement
        } else {
            ActionType::Unknown
        }
    }

    /// The wire name of this kind of action.
    pub fn as_str(&self) -> (r: &'static str)
        ensures
            r@ == name_of(*self),
    {
        match self {
            ActionType::CreatePreparedStatement => "CreatePreparedStatement",
            ActionType::ClosePreparedStatement => "ClosePreparedStatement",
            ActionType::Unknown => "Unknown",
        }
    }

    /// The wire name of this kind of action, owned.
    pub fn to_string(&self) -> (r: String)
        ensures
            r@ == name_of(*self),
    {
        self.as_str().to_owned()
    }
}

/// Every kind of action is recovered from its own wire name, so the three
/// names are pairwise different.
pub proof fn lemma_name_round_trip(kind: ActionType)
    ensures
        kind_named(name_of(kind)) == kind,
{
    reveal_strlit("CreatePreparedStatement");
    reveal_strlit("ClosePreparedStatement");
    reveal_strlit("Unknown");
    assert("CreatePreparedStatement"@.len() == 23);
    assert("ClosePreparedStatement"@.len() == 22);
    assert("Unknown"@.len() == 7);
}

/// An action advertised to clients: its name and what it does.
#[derive(Clone, Debug)]
pub struct ActionDescriptor {
    pub action_type: String,
    pub description: String,
}

/// What the service tells clients about creating a prepared statement.
pub open spec fn create_description() -> Seq<char> {
    "Creates a reusable prepared statement resource on the server.\n
            Request Message: ActionCreatePreparedStatementRequest\n
            Response Message: ActionCreatePreparedStatementResult"@
}

/// What the service tells clients about closing a prepared statement.
pub open spec fn close_description() -> Seq<char> {
    "Closes a reusable prepared statement resource on the server.\n
            Request Message: ActionClosePreparedStatementRequest\n
            Response Message: N/A"@
}

/// The actions advertised to clients: creating and closing a prepared
/// statement, in that order.
pub fn list() -> (r: Vec<ActionDescriptor>)
    ensures
        r@.len() == 2,
        r@[0].action_type@ == name_of(ActionType::CreatePreparedStatement),
        r@[0].description@ == create_description(),
        r@[1].action_type@ == name_of(ActionType::ClosePreparedStatement),
        r@[1].description@ == close_description(),
{
    let create = ActionDescriptor {
        action_type: ActionType::CreatePreparedStatement.to_string(),
        description: "Creates a reusable prepared statement resource on the server.\n
            Request Message: ActionCreatePreparedStatementRequest\n
            Response Message: ActionCreatePreparedStatementResult".to_owned(),
    };
    let close = ActionDescriptor {
        action_type: ActionType::ClosePreparedStatement.to_string(),
        description: "Closes a reusable prepared statement resource on the server.\n
            Request Message: ActionClosePreparedStatementRequest\n
            Response Message: N/A".to_owned(),
    };
    let mut actions: Vec<ActionDescriptor> = Vec::new();
    actions.push(create);
    actions.push(close);
    actions
}

/// What the service has to do for an action request, once the request has
/// been read.
#[derive(Clone, Debug)]
pub enum ActionPlan {
    /// Have the query engine plan the statement, then register it.
    Prepare(CreateStatementRequest),
    /// Evict the statement's handle.
    Close(CloseStatementRequest),
}

/// One message of the answer to an action.
#[derive(Clone, Debug)]
pub struct ActionResult {
    pub body: Vec<u8>,
}

pub open spec fn unknown_action_message(action_type: Seq<char>) -> Seq<char> {
    "Unknown action type: "@ + action_type
}

pub open spec fn undecodable_body_message() -> Seq<char> {
    "Unable to decode the action body."@
}

pub open spec fn create_other_type_message() -> Seq<char> {
    "Unable to unpack ActionCreatePreparedStatementRequest."@
}

pub open spec fn create_malformed_message() -> Seq<char> {
    "Unable to decode ActionCreatePreparedStatementRequest."@
}

pub open spec fn close_other_type_message() -> Seq<char> {
    "Unable to unpack ActionClosePreparedStatementRequest."@
}

pub open spec fn close_malformed_message() -> Seq<char> {
    "Unable to decode ActionClosePreparedStatementRequest."@
}

/// The plan for a create-statement action, given what was found in the
/// envelope: the request itself, or `InvalidRequest` where the envelope holds
/// another command or bytes that are no such request.
pub fn plan_create(unpacked: Unpacked<CreateStatementRequest>) -> (r: Result<
    ActionPlan,
    FlightError,
>)
    ensures
        match unpacked {
            Unpacked::Message(m) => r == Ok::<ActionPlan, FlightError>(ActionPlan::Prepare(m)),
            Unpacked::OtherType => fails_with(
                r,
                ErrorKind::InvalidRequest,
                create_other_type_message(),
            ),
            Unpacked::Malformed => fails_with(
                r,
                ErrorKind::InvalidRequest,
                create_malformed_message(),
            ),
        },
{
    match unpacked {
        Unpacked::Message(m) => Ok(ActionPlan::Prepare(m)),
        Unpacked::OtherType => Err(
            FlightError::new(
                ErrorKind::InvalidRequest,
                "Unable to unpack ActionCreatePreparedStatementRequest.".to_owned(),
            ),
        ),
        Unpacked::Malformed => Err(
            FlightError::new(
                ErrorKind::InvalidRequest,
                "Unable to decode ActionCreatePreparedStatementRequest.".to_owned(),
            ),
        ),
    }
}

/// The plan for a close-statement action, given what was found in the
/// envelope: the request itself, or `InvalidRequest` where the envelope holds
/// another command or bytes that are no such request.
pub fn plan_close(unpacked: Unpacked<CloseStatementRequest>) -> (r: Result<
    ActionPlan,
    FlightError,
>)
    ensures
        match unpacked {
            Unpacked::Message(m) => r == Ok::<ActionPlan, FlightError>(ActionPlan::Close(m)),
            Unpacked::OtherType => fails_with(
                r,
                ErrorKind::InvalidRequest,
                close_other_type_message(),
            ),
            Unpacked::Malformed => fails_with(
                r,
                ErrorKind::InvalidRequest,
                close_malformed_message(),
            ),
        },
{
    match unpacked {
        Unpacked::Message(m) => Ok(ActionPlan::Close(m)),
        Unpacked::OtherType => Err(
            FlightError::new(
                ErrorKind::InvalidRequest,
                "Unable to unpack ActionClosePreparedStatementRequest.".to_owned(),
            ),
        ),
        Unpacked::Malformed => Err(
            FlightError::new(
                ErrorKind::InvalidRequest,
                "Unable to decode ActionClosePreparedStatementRequest.".to_owned(),
            ),
        ),
    }
}

/// What reading an action request comes to, over the decodings of its body.
pub enum Routed {
    Prepare { query: Seq<char>, transaction_id: Option<Seq<u8>> },
    Close { handle: Seq<u8> },
    Rejected { message: Seq<char> },
}

/// How an action request is routed: by its type string first, then by the
/// envelope in its body.
pub open spec fn routed(action_type: Seq<char>, body: Seq<u8>) -> Routed {
    match kind_named(action_type) {
        ActionType::Unknown => Routed::Rejected { message: unknown_action_message(action_type) },
        ActionType::CreatePreparedStatement => match any_decoding(body) {
            None => Routed::Rejected { message: undecodable_body_message() },
            Some((type_url, value)) => if type_url != create_request_url() {
                Routed::Rejected { message: create_other_type_message() }
            } else {
                match create_request_decoding(value) {
                    None => Routed::Rejected { message: create_malformed_message() },
                    Some((query, transaction_id)) => Routed::Prepare { query, transaction_id },
                }
            },
        },
        ActionType::ClosePreparedStatement => match any_decoding(body) {
            None => Routed::Rejected { message: undecodable_body_message() },
            Some((type_url, value)) => if type_url != close_request_url() {
                Routed::Rejected { message: close_other_type_message() }
            } else {
                match close_request_decoding(value) {
                    None => Routed::Rejected { message: close_malformed_message() },
                    Some(handle) => Routed::Close { handle },
                }
            },
        },
    }
}

/// A create-statement action whose body is the envelope of a request is
/// routed to the preparation of that request's query.
pub proof fn lemma_create_request_is_routed(
    body: Seq<u8>,
    value: Seq<u8>,
    query: Seq<char>,
    transaction_id: Option<Seq<u8>>,
)
    requires
        any_decoding(body) == Some((create_request_url(), value)),
        create_request_decoding(value) == Some((query, transaction_id)),
    ensures
        routed(name_of(ActionType::CreatePreparedStatement), body) == (Routed::Prepare {
            query,
            transaction_id,
        }),
{
    lemma_name_round_trip(ActionType::CreatePreparedStatement);
}

/// A close-statement action whose body is the envelope of a request is
/// routed to the closing of that request's handle.
pub proof fn lemma_close_request_is_routed(body: Seq<u8>, value: Seq<u8>, handle: Seq<u8>)
    requires
        any_decoding(body) == Some((close_request_url(), value)),
        close_request_decoding(value) == Some(handle),
    ensures
        routed(name_of(ActionType::ClosePreparedStatement), body) == (Routed::Close { handle }),
{
    lemma_name_round_trip(ActionType::ClosePreparedStatement);
}

/// Whether a plan, or the failure to make one, is what the routing says.
pub open spec fn agrees(r: Result<ActionPlan, FlightError>, routed: Routed) -> bool {
    match routed {
        Routed::Prepare { query, transaction_id } => r matches Ok(ActionPlan::Prepare(m))
            && m.query@ == query && bytes_of(m.transaction_id) == transaction_id,
        Routed::Close { handle } => r matches Ok(ActionPlan::Close(m)) && m.handle@ == handle,
        Routed::Rejected { message } => fails_with(r, ErrorKind::InvalidRequest, message),
    }
}

/// Reads an action request and says what has to be done for it. The action
/// type string picks the kind of action; an unknown kind is rejected with an
/// `InvalidRequest` that names it, before the body is looked at. For a known kind the body
/// must be an envelope that carries that kind's request; everything else is
/// an `InvalidRequest`. Nothing is changed by this.
pub fn do_action(action_type: &str, body: &[u8]) -> (r: Result<ActionPlan, FlightError>)
    ensures
        agrees(r, routed(action_type@, body@)),
{
    match ActionType::from_str(action_type) {
        ActionType::Unknown => Err(
            FlightError::new(
                ErrorKind::InvalidRequest,
                prefixed("Unknown action type: ", action_type),
            ),
        ),
        ActionType::CreatePreparedStatement => match decode_any(body) {
            Err(_) => Err(
                FlightError::new(
                    ErrorKind::InvalidRequest,
                    "Unable to decode the action body.".to_owned(),
                ),
            ),
            Ok(envelope) => plan_create(unpacked_from(unpack_create_request(&envelope))),
        },
        ActionType::ClosePreparedStatement => match decode_any(body) {
            Err(_) => Err(
                FlightError::new(
                    ErrorKind::InvalidRequest,
                    "Unable to decode the action body.".to_owned(),
                ),
            ),
            Ok(envelope) => plan_close(unpacked_from(unpack_close_request(&envelope))),
        },
    }
}

/// The body of the answer to a create-statement action: the envelope of the
/// result that carries the handle and the schema of the statement's results.
/// A statement has no parameters, so the parameter schema is empty.
pub open spec fn create_answer(handle: u64, dataset_schema: Seq<u8>) -> Seq<u8> {
    any_encoding(
        create_result_url(),
        create_result_encoding(bytes_of_handle(handle), dataset_schema, Seq::<u8>::empty()),
    )
}

/// Finishes a create-statement action once the query engine has answered.
/// `planned` is the schema of the statement's results in wire form, or the
/// engine's message where it could not plan the statement.
///
/// Where planning failed, the failure is a `PlanningFailure` with the engine's
/// message and the table is as it was. Otherwise the statement is registered
/// and the answer is one message that carries its new handle.
pub fn complete_create(
    table: &mut StatementTable,
    request: CreateStatementRequest,
    planned: Result<Vec<u8>, String>,
) -> (r: Result<Vec<ActionResult>, FlightError>)
    requires
        old(table).wf(),
    ensures
        final(table).wf(),
        match planned {
            Err(message) => final(table).model() == old(table).model() && fails_with(
                r,
                ErrorKind::PlanningFailure,
                message@,
            ),
            Ok(schema) => {
                &&& final(table).model() == old(table).model().created(
                    (PreparedStatement { query: request.query, dataset_schema: schema }),
                )
                &&& if old(table).model().issued < u64::MAX {
                    r matches Ok(results) && results@.len() == 1 && results@[0].body@
                        == create_answer(old(table).model().issued as u64, schema@)
                } else {
                    fails_with(r, ErrorKind::InternalFailure, exhausted_message())
                }
            },
        },
{
    match planned {
        Err(message) => Err(FlightError::new(ErrorKind::PlanningFailure, message)),
        Ok(schema) => {
            let parameter_schema: Vec<u8> = Vec::new();
            let ghost schema_view = schema@;
            let schema_copy = schema.clone();
            let statement = PreparedStatement { query: request.query, dataset_schema: schema };
            let handle = table.create(statement)?;
            let envelope = pack_create_result(
                &encode_handle(handle),
                &schema_copy,
                &parameter_schema,
            );
            let mut results: Vec<ActionResult> = Vec::new();
            results.push(ActionResult { body: encode_any(&envelope) });
            Ok(results)
        },
    }
}

/// Finishes a close-statement action: evicts the handle that the request
/// names. Where the handle is live the answer is one empty message. Where it
/// is not (not eight bytes, never issued, closed before) the failure is
/// `NotFound` and the table is as it was.
pub fn complete_close(table: &mut StatementTable, request: &CloseStatementRequest) -> (r: Result<
    Vec<ActionResult>,
    FlightError,
>)
    requires
        old(table).wf(),
    ensures
        final(table).wf(),
        match handle_of(request.handle@) {
            Some(h) if old(table).model().live.contains_key(h) => {
                &&& final(table).model() == old(table).model().closed(h)
                &&& r matches Ok(results) && results@.len() == 1 && results@[0].body@
                    == Seq::<u8>::empty()
            },
            _ => final(table).model() == old(table).model() && fails_with(
                r,
                ErrorKind::NotFound,
                not_found_message(),
            ),
        },
{
    match decode_handle(request.handle.as_slice()) {
        None => Err(
            FlightError::new(
                ErrorKind::NotFound,
                "Prepared statement handle not found".to_owned(),
            ),
        ),
        Some(handle) => {
            table.close(handle)?;
            let mut results: Vec<ActionResult> = Vec::new();
            results.push(ActionResult { body: Vec::new() });
            Ok(results)
        },
    }
}

} // verus!
