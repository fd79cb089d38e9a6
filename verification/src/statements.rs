//! The table of prepared statements and the lifecycle of their handles.
//!
//! A handle is issued when a statement is created, resolves to the statement
//! while it is live, and is evicted when the statement is closed. Handles are
//! never issued twice, so a closed handle never resolves again.
use vstd::prelude::*;
use vstd::string::*;
use vstd::bytes::*;
use std::collections::HashMap;
use crate::error::fails_with;
use crate::error::ErrorKind;
use crate::error::FlightError;

verus! {

broadcast use vstd::std_specs::hash::group_hash_axioms;

/// A statement that the engine has planned: its text and the schema of its
/// results in wire form.
#[derive(Clone, Debug)]
pub struct PreparedStatement {
    pub query: String,
    pub dataset_schema: Vec<u8>,
}

/// The table as a mathematical value: how many handles were issued so far,
/// and the statements that live handles resolve to.
pub struct TableModel {
    pub issued: nat,
    pub live: Map<u64, PreparedStatement>,
}

/// An operation on the table.
pub enum TableOp {
    Create(PreparedStatement),
    Close(u64),
}

impl TableModel {
    /// Every live handle has been issued.
    pub open spec fn wf(self) -> bool {
        forall|h: u64| self.live.contains_key(h) ==> (h as nat) < self.issued
    }

    /// The handle was issued and is no longer live.
    pub open spec fn is_closed(self, handle: u64) -> bool {
        (handle as nat) < self.issued && !self.live.contains_key(handle)
    }

    /// The table after a statement was created. With every handle used up
    /// nothing changes.
    pub open spec fn created(self, statement: PreparedStatement) -> TableModel {
        if self.issued < u64::MAX {
            TableModel {
                issued: self.issued + 1,
                live: self.live.insert(self.issued as u64, statement),
            }
        } else {
            self
        }
    }

    /// The table after a handle was closed.
    pub open spec fn closed(self, handle: u64) -> TableModel {
        TableModel { issued: self.issued, live: self.live.remove(handle) }
    }

    /// The table after one operation.
    pub open spec fn after(self, op: TableOp) -> TableModel {
        match op {
            TableOp::Create(statement) => self.created(statement),
            TableOp::Close(handle) => self.closed(handle),
        }
    }

    /// The table after a sequence of operations, first to last.
    pub open spec fn after_all(self, ops: Seq<TableOp>) -> TableModel
        decreases ops.len(),
    {
        if ops.len() == 0 {
            self
        } else {
            self.after_all(ops.drop_last()).after(ops.last())
        }
    }
}

/// No operation breaks the table, and none revives a closed handle.
pub proof fn lemma_step_keeps_closed(table: TableModel, op: TableOp, handle: u64)
    requires
        table.wf(),
    ensures
        table.after(op).wf(),
        table.is_closed(handle) ==> table.after(op).is_closed(handle),
{
}

/// Closing a live handle makes it closed.
pub proof fn lemma_close_evicts(table: TableModel, handle: u64)
    requires
        table.wf(),
        table.live.contains_key(handle),
    ensures
        table.closed(handle).is_closed(handle),
{
}

/// Once a handle is closed it stays closed, whatever is created or closed
/// afterwards.
pub proof fn lemma_closed_handle_never_resolves(table: TableModel, ops: Seq<TableOp>, handle: u64)
    requires
        table.wf(),
        table.is_closed(handle),
    ensures
        table.after_all(ops).wf(),
        table.after_all(ops).is_closed(handle),
    decreases ops.len(),
{
    if ops.len() > 0 {
        lemma_closed_handle_never_resolves(table, ops.drop_last(), handle);
        lemma_step_keeps_closed(table.after_all(ops.drop_last()), ops.last(), handle);
    }
}

/// The handle that a byte string from the wire stands for: eight bytes, least
/// significant first. Any other length stands for no handle.
pub open spec fn handle_of(bytes: Seq<u8>) -> Option<u64> {
    if bytes.len() == 8 {
        Some(spec_u64_from_le_bytes(bytes))
    } else {
        None
    }
}

/// The wire form of a handle.
pub open spec fn bytes_of_handle(handle: u64) -> Seq<u8> {
    spec_u64_to_le_bytes(handle)
}

/// The wire form of a handle: eight bytes, least significant first.
pub fn encode_handle(handle: u64) -> (r: Vec<u8>)
    ensures
        r@ == bytes_of_handle(handle),
        handle_of(r@) == Some(handle),
{
    proof {
        lemma_auto_spec_u64_to_from_le_bytes();
    }
    u64_to_le_bytes(handle)
}

/// Reads a handle from the wire. `None` exactly where the bytes are not
/// eight.
pub fn decode_handle(bytes: &[u8]) -> (r: Option<u64>)
    ensures
        r == handle_of(bytes@),
{
    if bytes.len() == 8 {
        Some(u64_from_le_bytes(bytes))
    } else {
        None
    }
}

/// A handle is read back from its own wire form, and a wire form of eight
/// bytes is the wire form of the handle read from it.
pub proof fn lemma_handle_round_trip(handle: u64, bytes: Seq<u8>)
    ensures
        handle_of(bytes_of_handle(handle)) == Some(handle),
        handle_of(bytes) matches Some(h) ==> bytes_of_handle(h) == bytes,
{
    lemma_auto_spec_u64_to_from_le_bytes();
}

/// The life of a prepared statement. While handles are left, creating a
/// statement issues the next handle, and the handle resolves to the
/// statement. The handle is read back from its wire form. Once it is
/// closed it resolves to nothing, whatever is created or closed afterwards.
pub proof fn lemma_statement_lifecycle(
    table: TableModel,
    statement: PreparedStatement,
    later: Seq<TableOp>,
)
    requires
        table.wf(),
        table.issued < u64::MAX,
    ensures
        table.created(statement).wf(),
        table.created(statement).issued == table.issued + 1,
        table.created(statement).live.contains_key(table.issued as u64),
        table.created(statement).live[table.issued as u64] == statement,
        handle_of(bytes_of_handle(table.issued as u64)) == Some(table.issued as u64),
        table.created(statement).closed(table.issued as u64).is_closed(table.issued as u64),
        !table.created(statement).closed(table.issued as u64).after_all(
            later,
        ).live.contains_key(table.issued as u64),
{
    let handle = table.issued as u64;
    let created = table.created(statement);
    lemma_step_keeps_closed(table, TableOp::Create(statement), handle);
    lemma_handle_round_trip(handle, Seq::empty());
    lemma_close_evicts(created, handle);
    lemma_step_keeps_closed(created, TableOp::Close(handle), handle);
    lemma_closed_handle_never_resolves(created.closed(handle), later, handle);
}

/// The prepared statements of one server process.
pub struct StatementTable {
    next_handle: u64,
    statements: HashMap<u64, PreparedStatement>,
}

pub open spec fn not_found_message() -> Seq<char> {
    "Prepared statement handle not found"@
}

pub open spec fn exhausted_message() -> Seq<char> {
    "Prepared statement handles are exhausted"@
}

impl StatementTable {
    /// The table as a mathematical value.
    pub closed spec fn model(&self) -> TableModel {
        TableModel { issued: self.next_handle as nat, live: self.statements@ }
    }

    /// Every live handle has been issued.
    pub open spec fn wf(&self) -> bool {
        self.model().wf()
    }

    /// An empty table that has issued no handle.
    pub fn new() -> (r: StatementTable)
        ensures
            r.wf(),
            r.model().issued == 0,
            r.model().live == Map::<u64, PreparedStatement>::empty(),
    {
        StatementTable { next_handle: 0, statements: HashMap::new() }
    }

    /// How many statements are live.
    pub fn live_count(&self) -> (r: usize)
        ensures
            r == self.model().live.len(),
    {
        self.statements.len()
    }

    /// Registers a planned statement and issues its handle: the number of
    /// handles issued before. Fails with `InternalFailure`, leaving the table
    /// as it was, only when every handle has been used up.
    pub fn create(&mut self, statement: PreparedStatement) -> (r: Result<u64, FlightError>)
        requires
            old(self).wf(),
        ensures
            final(self).wf(),
            final(self).model() == old(self).model().created(statement),
            old(self).model().issued < u64::MAX ==> r == Ok::<u64, FlightError>(
                old(self).model().issued as u64,
            ),
            old(self).model().issued >= u64::MAX ==> fails_with(r, ErrorKind::InternalFailure, exhausted_message()),
    {
        if self.next_handle == u64::MAX {
            return Err(
                FlightError::new(
                    ErrorKind::InternalFailure,
                    "Prepared statement handles are exhausted".to_owned(),
                ),
            );
        }
        let handle = self.next_handle;
        proof {
            lemma_step_keeps_closed(old(self).model(), TableOp::Create(statement), handle);
        }
        self.statements.insert(handle, statement);
        self.next_handle = handle + 1;
        Ok(handle)
    }

    /// The statement that a handle stands for. Fails with `NotFound` exactly
    /// where the handle is not live: never issued, or closed.
    pub fn resolve(&self, handle: u64) -> (r: Result<&PreparedStatement, FlightError>)
        ensures
            self.model().live.contains_key(handle) ==> r == Ok::<&PreparedStatement, FlightError>(
                &self.model().live[handle],
            ),
            !self.model().live.contains_key(handle) ==> fails_with(r, ErrorKind::NotFound, not_found_message()),
    {
        match self.statements.get(&handle) {
            Some(statement) => Ok(statement),
            None => Err(
                FlightError::new(
                    ErrorKind::NotFound,
                    "Prepared statement handle not found".to_owned(),
                ),
            ),
        }
    }

    /// The statement that a handle in wire form stands for. Fails with
    /// `NotFound` exactly where the bytes are no handle or the handle is not
    /// live.
    pub fn resolve_bytes(&self, handle: &[u8]) -> (r: Result<&PreparedStatement, FlightError>)
        ensures
            match handle_of(handle@) {
                Some(h) if self.model().live.contains_key(h) => r == Ok::<
                    &PreparedStatement,
                    FlightError,
                >(&self.model().live[h]),
                _ => fails_with(r, ErrorKind::NotFound, not_found_message()),
            },
    {
        match decode_handle(handle) {
            Some(h) => self.resolve(h),
            None => Err(
                FlightError::new(
                    ErrorKind::NotFound,
                    "Prepared statement handle not found".to_owned(),
                ),
            ),
        }
    }

    /// Evicts a handle. Fails with `NotFound`, leaving the table as it was,
    /// exactly where the handle is not live.
    pub fn close(&mut self, handle: u64) -> (r: Result<(), FlightError>)
        requires
            old(self).wf(),
        ensures
            final(self).wf(),
            final(self).model() == old(self).model().closed(handle),
            old(self).model().live.contains_key(handle) ==> r is Ok,
            !old(self).model().live.contains_key(handle) ==> final(self).model() == old(
                self,
            ).model() && fails_with(r, ErrorKind::NotFound, not_found_message()),
    {
        proof {
            lemma_step_keeps_closed(old(self).model(), TableOp::Close(handle), handle);
            if !old(self).model().live.contains_key(handle) {
                assert(old(self).model().live.remove(handle) =~= old(self).model().live);
            }
        }
        match self.statements.remove(&handle) {
            Some(_) => Ok(()),
            None => {
                Err(
                    FlightError::new(
                        ErrorKind::NotFound,
                        "Prepared statement handle not found".to_owned(),
                    ),
                )
            },
        }
    }
}

} // verus!
