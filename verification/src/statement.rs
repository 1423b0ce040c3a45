//! How a statement is run, and what it is replied.

use vstd::prelude::*;

use crate::cells::{row_to_json, Column};
#[allow(unused_imports)]
use crate::cells::columns_view;
use crate::config::AppState;
use crate::connection::{connect_database, query_error, ConnectionPlan, ResilienceError, SqlError};
#[allow(unused_imports)]
use crate::connection::{no_password, query_failure, reaches};
use crate::error::ApiError;
use crate::identifiers::ensure_database;
#[allow(unused_imports)]
use crate::identifiers::{is_known, unknown_database};
use crate::json::{Row, RowView};
#[allow(unused_imports)]
use crate::json::rows_view;
use crate::query::{Query, Reply};
#[allow(unused_imports)]
use crate::query::{reply_view, ReplyView};

verus! {

/// How the database of a statement is to be reached: only one behind the gateway, and only with a
/// password.
pub fn plan_statement(state: &AppState, query: &Query) -> (plan: Result<ConnectionPlan, ApiError>)
    ensures
        match plan {
            Ok(p) => is_known(query.database@) && reaches(p, state.settings(), query.database@),
            Err(error) => if !is_known(query.database@) {
                error@ == unknown_database(query.database@)
            } else {
                state.settings().cockroach_password is None && error@ == no_password()
            },
        },
{
    if let Err(error) = ensure_database(query.database.as_str()) {
        return Err(error);
    }
    connect_database(state, query.database.as_str())
}

/// How running a statement failed: outside the limit of all attempts together, inside the
/// attempts.
pub type Failure = ResilienceError<ResilienceError<SqlError>>;

/// What each of the rows holds.
pub open spec fn result_view(rows: Seq<Vec<Column>>) -> Seq<RowView> {
    Seq::new(rows.len(), |i: int| columns_view(rows[i]@))
}

/// The reply to a statement that reads.
pub open spec fn query_reply(outcome: Result<Vec<Vec<Column>>, Failure>) -> ReplyView {
    match outcome {
        Ok(rows) => Ok(result_view(rows@)),
        Err(error) => Err(query_failure("query"@, error)),
    }
}

/// The reply to a statement that reads, by the rows that it came to.
pub fn run_query(outcome: Result<Vec<Vec<Column>>, Failure>) -> (reply: Reply)
    ensures
        reply_view(reply) == query_reply(outcome),
{
    match outcome {
        Ok(rows) => {
            let mut list: Vec<Row> = Vec::new();
            for i in 0..rows.len()
                invariant
                    list@.len() == i,
                    forall|k: int| 0 <= k < i ==> (#[trigger] list@[k])@ == columns_view(rows@[k]@),
            {
                list.push(row_to_json(&rows[i]));
            }
            assert(rows_view(list@) =~= result_view(rows@));
            Ok(list)
        },
        Err(error) => Err(query_error("query", error)),
    }
}

/// The reply to a statement that writes.
pub open spec fn write_reply(outcome: Result<u64, Failure>) -> ReplyView {
    match outcome {
        Ok(_) => Ok(Seq::empty()),
        Err(error) => Err(query_failure("write"@, error)),
    }
}

/// The reply to a statement that writes, by the number of rows that it changed.
pub fn run_write(outcome: Result<u64, Failure>) -> (reply: Reply)
    ensures
        reply_view(reply) == write_reply(outcome),
{
    match outcome {
        Ok(_) => {
            let rows: Vec<Row> = Vec::new();
            assert(rows_view(rows@) =~= Seq::empty());
            Ok(rows)
        },
        Err(error) => Err(query_error("write", error)),
    }
}

} // verus!
