//! The SQL text with which a table of another database is scanned.
use vstd::prelude::*;
use vstd::string::*;
use crate::text::decimal_string;
use crate::text::decimal_text;
use crate::text::join;
use crate::text::joined;
use crate::text::prefixed;
use crate::text::surround;
use crate::text::views_of;

verus! {

/// What can go wrong while a table is set up or scanned. Each failure
/// carries the message of the collaborator that failed.
#[derive(Clone, Debug)]
pub enum Error {
    UnableToGetConnectionFromPool { source: String },
    UnableToGetSchema { source: String },
    UnableToGenerateSQL { source: String },
}

/// How far a filter can be handed down to the database.
#[derive(Clone, Copy, Debug, PartialEq, Eq, Structural)]
pub enum FilterPushDown {
    /// The database cannot apply the filter.
    Unsupported,
    /// The database applies the filter, but rows that fail it may come back.
    Inexact,
    /// The database applies the filter exactly.
    Exact,
}

/// A filter as SQL text, or the reason why it has no SQL text.
#[derive(Clone, Debug)]
pub enum RenderedFilter {
    Sql(String),
    Failed(String),
}

/// How far each filter can be handed down: exactly where the filter has SQL
/// text, not at all where it has none.
pub fn supports_filters_pushdown(filters: &Vec<RenderedFilter>) -> (r: Vec<FilterPushDown>)
    ensures
        r@.len() == filters@.len(),
        forall|i: int|
            0 <= i < filters@.len() ==> #[trigger] r@[i] == if filters@[i] is Sql {
                FilterPushDown::Exact
            } else {
                FilterPushDown::Unsupported
            },
{
    let mut support: Vec<FilterPushDown> = Vec::new();
    let mut i: usize = 0;
    while i < filters.len()
        invariant
            i <= filters@.len(),
            support@.len() == i,
            forall|j: int|
                0 <= j < i ==> #[trigger] support@[j] == if filters@[j] is Sql {
                    FilterPushDown::Exact
                } else {
                    FilterPushDown::Unsupported
                },
        decreases filters@.len() - i,
    {
        match &filters[i] {
            RenderedFilter::Sql(_) => support.push(FilterPushDown::Exact),
            RenderedFilter::Failed(_) => support.push(FilterPushDown::Unsupported),
        }
        i += 1;
    }
    support
}

/// A scan of a table: the columns to fetch, the table, the filters to apply
/// and the number of rows to stop at.
#[derive(Clone, Debug)]
pub struct SqlExec {
    pub columns: Vec<String>,
    pub table_reference: String,
    pub filters: Vec<RenderedFilter>,
    pub limit: Option<usize>,
}

/// A name in double quotes.
pub open spec fn quoted(name: Seq<char>) -> Seq<char> {
    "\""@ + name + "\""@
}

/// The columns of a scan: each name in double quotes, separated by commas.
pub open spec fn columns_text(columns: Seq<Seq<char>>) -> Seq<char> {
    joined(columns.map_values(|c: Seq<char>| quoted(c)), ", "@)
}

/// The limit of a scan, or nothing where it has none.
pub open spec fn limit_text(limit: Option<usize>) -> Seq<char> {
    match limit {
        Some(n) => "LIMIT "@ + decimal_text(n as nat),
        None => Seq::empty(),
    }
}

/// Where the first filter without SQL text stands, or the number of
/// filters where each has one.
pub open spec fn first_failed(filters: Seq<RenderedFilter>) -> int
    decreases filters.len(),
{
    if filters.len() == 0 {
        0
    } else if filters[0] is Failed {
        0
    } else {
        1 + first_failed(filters.skip(1))
    }
}

/// The SQL texts of filters that each have one.
pub open spec fn filter_texts(filters: Seq<RenderedFilter>) -> Seq<Seq<char>> {
    filters.map_values(|f: RenderedFilter| f->Sql_0@)
}

/// The condition of a scan: the filters joined by `AND`, or nothing where
/// there is no filter.
pub open spec fn where_text(filters: Seq<RenderedFilter>) -> Seq<char> {
    if filters.len() == 0 {
        Seq::empty()
    } else {
        "WHERE "@ + joined(filter_texts(filters), " AND "@)
    }
}

/// The whole statement of a scan.
pub open spec fn statement_text(
    columns: Seq<Seq<char>>,
    table: Seq<char>,
    filters: Seq<RenderedFilter>,
    limit: Option<usize>,
) -> Seq<char> {
    "SELECT "@ + columns_text(columns) + " FROM "@ + table + " "@ + where_text(filters) + " "@
        + limit_text(limit)
}

/// If no filter before position `i` lacks SQL text and the one at `i` does,
/// or `i` is the number of filters, then `i` is where `first_failed` points.
proof fn lemma_first_failed_is(filters: Seq<RenderedFilter>, i: int)
    requires
        0 <= i <= filters.len(),
        forall|j: int| 0 <= j < i ==> #[trigger] filters[j] is Sql,
        i < filters.len() ==> filters[i] is Failed,
    ensures
        first_failed(filters) == i,
    decreases filters.len(),
{
    if i > 0 {
        let rest = filters.skip(1);
        assert(filters[0] is Sql);
        assert forall|j: int| 0 <= j < i - 1 implies #[trigger] rest[j] is Sql by {
            assert(filters[j + 1] is Sql);
        }
        lemma_first_failed_is(rest, i - 1);
    }
}

impl SqlExec {
    /// The statement of the scan. Where a filter has no SQL text the scan
    /// has no statement, and the failure carries the reason of the first
    /// such filter.
    pub fn sql(&self) -> (r: Result<String, Error>)
        ensures
            first_failed(self.filters@) == self.filters@.len() ==> (r matches Ok(text) && text@
                == statement_text(
                views_of(self.columns@),
                self.table_reference@,
                self.filters@,
                self.limit,
            )),
            first_failed(self.filters@) < self.filters@.len() ==> (r matches Err(
                Error::UnableToGenerateSQL { source },
            ) && self.filters@[first_failed(self.filters@)] matches RenderedFilter::Failed(reason)
                && source@ == reason@),
    {
        let mut quoted_columns: Vec<String> = Vec::new();
        let mut c: usize = 0;
        while c < self.columns.len()
            invariant
                c <= self.columns@.len(),
                views_of(quoted_columns@) == views_of(self.columns@).take(c as int).map_values(
                    |n: Seq<char>| quoted(n),
                ),
            decreases self.columns@.len() - c,
        {
            let ghost before = views_of(quoted_columns@);
            let item = surround("\"", self.columns[c].as_str(), "\"");
            quoted_columns.push(item);
            proof {
                assert(views_of(quoted_columns@) =~= before.push(quoted(self.columns@[c as int]@)));
                assert(views_of(self.columns@).take(c + 1).map_values(|n: Seq<char>| quoted(n))
                    =~= before.push(quoted(self.columns@[c as int]@)));
            }
            c += 1;
        }
        proof {
            assert(views_of(self.columns@).take(self.columns@.len() as int) =~= views_of(
                self.columns@,
            ));
        }
        let columns = join(&quoted_columns, ", ");

        let limit_expr = match self.limit {
            Some(limit) => prefixed("LIMIT ", decimal_string(limit).as_str()),
            None => String::new(),
        };

        let where_expr = if self.filters.len() == 0 {
            proof {
                lemma_first_failed_is(self.filters@, 0);
            }
            String::new()
        } else {
            let mut texts: Vec<String> = Vec::new();
            let mut i: usize = 0;
            while i < self.filters.len()
                invariant
                    i <= self.filters@.len(),
                    forall|j: int| 0 <= j < i ==> #[trigger] self.filters@[j] is Sql,
                    views_of(texts@) == filter_texts(self.filters@.take(i as int)),
                decreases self.filters@.len() - i,
            {
                match &self.filters[i] {
                    RenderedFilter::Sql(text) => {
                        let ghost before = views_of(texts@);
                        texts.push(text.clone());
                        proof {
                            assert(views_of(texts@) =~= before.push(text@));
                            assert(filter_texts(self.filters@.take(i + 1)) =~= before.push(text@));
                        }
                    },
                    RenderedFilter::Failed(reason) => {
                        proof {
                            lemma_first_failed_is(self.filters@, i as int);
                        }
                        return Err(Error::UnableToGenerateSQL { source: reason.clone() });
                    },
                }
                i += 1;
            }
            proof {
                lemma_first_failed_is(self.filters@, self.filters@.len() as int);
                assert(self.filters@.take(self.filters@.len() as int) =~= self.filters@);
            }
            prefixed("WHERE ", join(&texts, " AND ").as_str())
        };

        let mut statement = surround("SELECT ", columns.as_str(), " FROM ");
        statement.append(self.table_reference.as_str());
        statement.append(" ");
        statement.append(where_expr.as_str());
        statement.append(" ");
        statement.append(limit_expr.as_str());
        Ok(statement)
    }
}

} // verus!
