//! How many rows a table has.

use vstd::prelude::*;

use crate::error::ApiError;
use crate::identifiers::ensure_identifier;
#[allow(unused_imports)]
use crate::identifiers::{invalid_name, valid_identifier};
use crate::json::{Datum, Row, RowView};
#[allow(unused_imports)]
use crate::json::{rows_view, DatumView};
use crate::lookup::json_value_to_i64;
#[allow(unused_imports)]
use crate::lookup::int_of;
use crate::query::{Query, QueryView, Reply, ReplyView};
#[allow(unused_imports)]
use crate::query::{plain_query, reply_view};
use crate::sql::row_count_text;
#[allow(unused_imports)]
use crate::sql::row_count_sql;

verus! {

/// The statement that counts the rows of `table`.
pub open spec fn row_count_query(database: Seq<char>, table: Seq<char>) -> QueryView {
    plain_query(database, row_count_sql(table))
}

/// The count that the rows of a counting statement give: the column `cnt` of the first row, or
/// nothing where it is missing or no integer.
pub open spec fn counted(rows: Seq<RowView>) -> int {
    if rows.len() > 0 && rows[0].contains_key("cnt"@) && int_of(rows[0]["cnt"@]) is Some {
        int_of(rows[0]["cnt"@])->Some_0 as int
    } else {
        0
    }
}

/// The statement that counts the rows of `table`, where the name may stand in a statement.
pub fn table_row_count_query(database: &str, table: &str) -> (query: Result<Query, ApiError>)
    ensures
        match query {
            Ok(q) => valid_identifier(table@) && q@ == row_count_query(database@, table@),
            Err(error) => !valid_identifier(table@) && error@ == invalid_name("table"@),
        },
{
    match ensure_identifier("table", table) {
        Ok(()) => Ok(Query::plain(database, row_count_text(table).as_str())),
        Err(error) => Err(error),
    }
}

/// The count that the rows of a counting statement give.
pub fn row_count(rows: &Vec<Row>) -> (count: i64)
    ensures
        count == counted(rows_view(rows@)),
{
    if rows.len() == 0 {
        return 0;
    }
    match rows[0].get("cnt") {
        Some(value) => match json_value_to_i64(value) {
            Some(count) => count,
            None => 0,
        },
        None => 0,
    }
}

/// What is reported as the number of rows of a table, where its name may stand in a statement
/// and the counting statement comes to `reply`.
pub open spec fn reported_count(reply: ReplyView, default: int) -> int {
    match reply {
        Ok(rows) => counted(rows),
        Err(_) => default,
    }
}

/// What is reported as the number of rows of a table.
pub fn count_or(reply: &Reply, default: i64) -> (count: i64)
    ensures
        count == reported_count(reply_view(*reply), default as int),
{
    match reply {
        Ok(rows) => row_count(rows),
        Err(_) => default,
    }
}

/// The name of the table that a row of a table list stands for.
pub open spec fn listed_name(row: RowView) -> Seq<char> {
    if row.contains_key("table_name"@) {
        match row["table_name"@] {
            DatumView::Text(name) => name,
            _ => Seq::empty(),
        }
    } else {
        Seq::empty()
    }
}

/// The name of the table that a row of a table list stands for: its column `table_name`, or nothing
/// where that is missing or no text.
pub fn table_name(row: &Row) -> (name: String)
    ensures
        name@ == listed_name(row@),
{
    match row.get("table_name") {
        Some(Datum::Text(name)) => name.clone(),
        _ => String::new(),
    }
}

} // verus!
