//! The decisions of the interactive query prompt: what a line that the user
//! typed asks for, which request a query becomes, and what the user is told
//! when the server refuses.
use vstd::prelude::*;
use vstd::string::*;
use arrow_flight::sql::CommandStatementQuery;
use arrow_flight::sql::ProstMessageExt;
use crate::descriptor::DescriptorType;
use crate::descriptor::FlightDescriptor;
use crate::descriptor::FlightInfo;
use crate::descriptor::Ticket;
use crate::envelope::any_encoding;
use crate::envelope::encode_any;
use crate::envelope::Envelope;
use crate::error::fails_with;
use crate::error::ErrorKind;
use crate::error::FlightError;
use crate::error::StatusCode;
use crate::text::same_text;
use crate::text::skip_chars;
use crate::text::take_chars;

verus! {

/// How the prompt is set up.
#[derive(Clone, Debug)]
pub struct ReplConfig {
    /// The address of the server that answers the queries.
    pub repl_flight_endpoint: String,
}

impl Default for ReplConfig {
    /// The prompt talks to a server on this machine.
    fn default() -> (r: ReplConfig)
        ensures
            r.repl_flight_endpoint@ == "http://localhost:50051"@,
    {
        ReplConfig { repl_flight_endpoint: "http://localhost:50051".to_owned() }
    }
}

/// Whether a character is white space: one of the 25 characters that
/// Unicode gives the property `White_Space`.
pub open spec fn white_space(c: char) -> bool {
    let code = c as u32;
    ||| 0x09 <= code <= 0x0D
    ||| code == 0x20
    ||| code == 0x85
    ||| code == 0xA0
    ||| code == 0x1680
    ||| 0x2000 <= code <= 0x200A
    ||| code == 0x2028
    ||| code == 0x2029
    ||| code == 0x202F
    ||| code == 0x205F
    ||| code == 0x3000
}

/// Trusted: `char::is_whitespace`, which is true of the characters with the
/// Unicode property `White_Space` and of no others.
#[verifier::external_body]
fn is_white_space(c: char) -> (r: bool)
    ensures
        r == white_space(c),
{
    c.is_whitespace()
}

/// `s` without the white space at its front.
pub open spec fn without_leading_space(s: Seq<char>) -> Seq<char>
    decreases s.len(),
{
    if s.len() > 0 && white_space(s[0]) {
        without_leading_space(s.skip(1))
    } else {
        s
    }
}

/// `s` without the white space at its end.
pub open spec fn without_trailing_space(s: Seq<char>) -> Seq<char>
    decreases s.len(),
{
    if s.len() > 0 && white_space(s.last()) {
        without_trailing_space(s.drop_last())
    } else {
        s
    }
}

/// `s` without the white space at its front and at its end.
pub open spec fn trimmed(s: Seq<char>) -> Seq<char> {
    without_trailing_space(without_leading_space(s))
}

/// Takes the white space away from both ends of `s`.
pub fn trim(s: &str) -> (r: &str)
    ensures
        r@ == trimmed(s@),
{
    let len = s.unicode_len();
    let mut start: usize = 0;
    proof {
        assert(s@.skip(0) =~= s@);
    }
    while start < len && is_white_space(s.get_char(start))
        invariant
            start <= len,
            len == s@.len(),
            without_leading_space(s@.skip(start as int)) == without_leading_space(s@),
        decreases len - start,
    {
        proof {
            assert(s@.skip(start as int).skip(1) =~= s@.skip(start + 1));
        }
        start += 1;
    }
    let rest = skip_chars(s, start);
    assert(rest@ == without_leading_space(s@));
    let mut end: usize = len - start;
    proof {
        assert(rest@.take(end as int) =~= rest@);
    }
    while end > 0 && is_white_space(rest.get_char(end - 1))
        invariant
            end <= rest@.len(),
            without_trailing_space(rest@.take(end as int)) == without_trailing_space(rest@),
        decreases end,
    {
        proof {
            assert(rest@.take(end as int).drop_last() =~= rest@.take(end - 1));
        }
        end -= 1;
    }
    take_chars(rest, end)
}

/// What a line asks the prompt to do.
#[derive(Clone, Debug)]
pub enum ReplCommand {
    /// Nothing: the line is empty.
    Nothing,
    /// Leave the prompt.
    Exit,
    /// Show the details of the last failure.
    ShowLastError,
    /// Show the help.
    Help,
    /// Run the line as a query.
    Query(String),
}

/// What a trimmed line asks for.
pub open spec fn command_of(line: Seq<char>) -> ReplCommandView {
    if line.len() == 0 {
        ReplCommandView::Nothing
    } else if line == ".exit"@ || line == "exit"@ || line == "quit"@ || line == "q"@ {
        ReplCommandView::Exit
    } else if line == ".error"@ {
        ReplCommandView::ShowLastError
    } else if line == "help"@ {
        ReplCommandView::Help
    } else {
        ReplCommandView::Query(line)
    }
}

/// A command, with the text of a query as a sequence of characters.
pub enum ReplCommandView {
    Nothing,
    Exit,
    ShowLastError,
    Help,
    Query(Seq<char>),
}

impl View for ReplCommand {
    type V = ReplCommandView;

    open spec fn view(&self) -> ReplCommandView {
        match self {
            ReplCommand::Nothing => ReplCommandView::Nothing,
            ReplCommand::Exit => ReplCommandView::Exit,
            ReplCommand::ShowLastError => ReplCommandView::ShowLastError,
            ReplCommand::Help => ReplCommandView::Help,
            ReplCommand::Query(q) => ReplCommandView::Query(q@),
        }
    }
}

/// Reads a line that the user typed. White space around it does not count.
/// An empty line asks for nothing; `.exit`, `exit`, `quit` and `q` leave the
/// prompt; `.error` shows the last failure; `help` shows the help; any other
/// line is a query.
pub fn classify_line(line: &str) -> (r: ReplCommand)
    ensures
        r@ == command_of(trimmed(line@)),
{
    let line = trim(line);
    if line.unicode_len() == 0 {
        ReplCommand::Nothing
    } else if same_text(line, ".exit") || same_text(line, "exit") || same_text(line, "quit")
        || same_text(line, "q") {
        ReplCommand::Exit
    } else if same_text(line, ".error") {
        ReplCommand::ShowLastError
    } else if same_text(line, "help") {
        ReplCommand::Help
    } else {
        ReplCommand::Query(line.to_owned())
    }
}

/// One entry of the help: the words to type, and what they do.
#[derive(Clone, Debug)]
pub struct HelpEntry {
    pub keys: String,
    pub explanation: String,
}

/// The help of the prompt, entry by entry.
pub fn help_entries() -> (r: Vec<HelpEntry>)
    ensures
        r@.len() == 3,
        r@[0].keys@ == ".exit, exit, quit, q:"@ && r@[0].explanation@ == "Exit the REPL"@,
        r@[1].keys@ == ".error:"@ && r@[1].explanation@
            == "Show technical details from the last error"@,
        r@[2].keys@ == "help:"@ && r@[2].explanation@ == "Show this help message"@,
{
    let mut entries: Vec<HelpEntry> = Vec::new();
    entries.push(
        HelpEntry {
            keys: ".exit, exit, quit, q:".to_owned(),
            explanation: "Exit the REPL".to_owned(),
        },
    );
    entries.push(
        HelpEntry {
            keys: ".error:".to_owned(),
            explanation: "Show technical details from the last error".to_owned(),
        },
    );
    entries.push(
        HelpEntry { keys: "help:".to_owned(), explanation: "Show this help message".to_owned() },
    );
    entries
}

pub open spec fn statement_query_url() -> Seq<char> {
    "type.googleapis.com/arrow.flight.protocol.sql.CommandStatementQuery"@
}

/// The bytes that encode a query command with the given text and no
/// transaction.
pub uninterp spec fn statement_query_encoding(query: Seq<char>) -> Seq<u8>;

/// Trusted: `ProstMessageExt::as_any` on a `CommandStatementQuery` without a
/// transaction. The envelope carries the command's type URL; its value
/// depends on the query text alone, and `statement_query_encoding` names
/// it.
#[verifier::external_body]
fn pack_statement_query(query: &str) -> (r: Envelope)
    ensures
        r.type_url@ == statement_query_url(),
        r.value@ == statement_query_encoding(query@),
{
    let command = CommandStatementQuery { query: query.to_string(), transaction_id: None };
    let any = command.as_any();
    Envelope { type_url: any.type_url, value: any.value.to_vec() }
}

/// The request that a query becomes: a descriptor whose command is the
/// envelope of the query.
pub fn query_descriptor(query: &str) -> (r: FlightDescriptor)
    ensures
        r.kind == DescriptorType::Cmd,
        r.path@.len() == 0,
        r.cmd@ == any_encoding(statement_query_url(), statement_query_encoding(query@)),
{
    let envelope = pack_statement_query(query);
    FlightDescriptor::new_cmd(encode_any(&envelope))
}

pub open spec fn no_endpoint_message() -> Seq<char> {
    "No endpoint"@
}

pub open spec fn no_ticket_message() -> Seq<char> {
    "No ticket"@
}

/// The ticket with which the result of a query is fetched: that of the last
/// endpoint of the flight information. Information without an endpoint, or
/// whose last endpoint has no ticket, is an `InternalFailure`.
pub fn ticket_of(info: FlightInfo) -> (r: Result<Ticket, FlightError>)
    ensures
        info.endpoint@.len() == 0 ==> fails_with(
            r,
            ErrorKind::InternalFailure,
            no_endpoint_message(),
        ),
        info.endpoint@.len() > 0 ==> match info.endpoint@.last().ticket {
            Some(ticket) => r == Ok::<Ticket, FlightError>(ticket),
            None => fails_with(r, ErrorKind::InternalFailure, no_ticket_message()),
        },
{
    let mut endpoints = info.endpoint;
    match endpoints.pop() {
        None => Err(FlightError::new(ErrorKind::InternalFailure, "No endpoint".to_owned())),
        Some(endpoint) => match endpoint.ticket {
            Some(ticket) => Ok(ticket),
            None => Err(FlightError::new(ErrorKind::InternalFailure, "No ticket".to_owned())),
        },
    }
}

pub open spec fn internal_error_text() -> Seq<char> {
    "An internal error occurred while processing the query. Show technical details with '.error'"@
}

/// What the user is told about a failure, by the status code of the
/// failure. A status that is no failure gives nothing to tell. For a request
/// that the server found wrong, the user is told the server's own message.
pub open spec fn user_message_of(code: StatusCode, message: Seq<char>) -> Option<Seq<char>> {
    match code {
        StatusCode::Success => None,
        StatusCode::Unknown
        | StatusCode::Internal
        | StatusCode::Unauthenticated
        | StatusCode::DataLoss
        | StatusCode::OutOfRange
        | StatusCode::FailedPrecondition => Some(internal_error_text()),
        StatusCode::InvalidArgument | StatusCode::AlreadyExists | StatusCode::NotFound => Some(
            message,
        ),
        StatusCode::Cancelled => Some("The query was cancelled before it could complete."@),
        StatusCode::Aborted => Some("The query was aborted before it could complete."@),
        StatusCode::DeadlineExceeded => Some(
            "The query could not be completed because the deadline for the query was exceeded."@,
        ),
        StatusCode::PermissionDenied => Some(
            "The query could not be completed because the user does not have permission to access the requested data."@,
        ),
        StatusCode::ResourceExhausted => Some(
            "The query could not be completed because the server has run out of resources."@,
        ),
        StatusCode::Unimplemented => Some(
            "The query could not be completed because the server does not support the requested operation."@,
        ),
        StatusCode::Unavailable => Some(
            "The query could not be completed because the server is unavailable."@,
        ),
    }
}

/// The view of an optional string.
pub open spec fn text_of(o: Option<String>) -> Option<Seq<char>> {
    match o {
        Some(s) => Some(s@),
        None => None,
    }
}

/// What the user is told about a failure with the given status code and
/// message.
pub fn display_grpc_error(code: StatusCode, message: &str) -> (r: Option<String>)
    ensures
        text_of(r) == user_message_of(code, message@),
{
    match code {
        StatusCode::Success => None,
        StatusCode::Unknown
        | StatusCode::Internal
        | StatusCode::Unauthenticated
        | StatusCode::DataLoss
        | StatusCode::OutOfRange
        | StatusCode::FailedPrecondition => Some(
            "An internal error occurred while processing the query. Show technical details with '.error'".to_owned(),
        ),
        StatusCode::InvalidArgument | StatusCode::AlreadyExists | StatusCode::NotFound => Some(
            message.to_owned(),
        ),
        StatusCode::Cancelled => Some(
            "The query was cancelled before it could complete.".to_owned(),
        ),
        StatusCode::Aborted => Some("The query was aborted before it could complete.".to_owned()),
        StatusCode::DeadlineExceeded => Some(
            "The query could not be completed because the deadline for the query was exceeded.".to_owned(),
        ),
        StatusCode::PermissionDenied => Some(
            "The query could not be completed because the user does not have permission to access the requested data.".to_owned(),
        ),
        StatusCode::ResourceExhausted => Some(
            "The query could not be completed because the server has run out of resources.".to_owned(),
        ),
        StatusCode::Unimplemented => Some(
            "The query could not be completed because the server does not support the requested operation.".to_owned(),
        ),
        StatusCode::Unavailable => Some(
            "The query could not be completed because the server is unavailable.".to_owned(),
        ),
    }
}

} // verus!
