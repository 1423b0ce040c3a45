//! One page of a table.

use vstd::prelude::*;

use crate::auth::authorize;
#[allow(unused_imports)]
use crate::auth::{admitted, not_admitted, opt_bytes};
use crate::config::AppState;
#[allow(unused_imports)]
use crate::config::opt_text;
use crate::counts::count_or;
#[allow(unused_imports)]
use crate::counts::{reported_count, row_count_query};
use crate::error::{ApiError, ApiErrorView};
#[allow(unused_imports)]
use crate::error::Status;
use crate::flow::{Flow, Replies, Response, ResponseView, Step};
#[allow(unused_imports)]
use crate::flow::{response_view, step_asked, step_outcome, step_wf};
use crate::identifiers::{ensure_database, ensure_identifier};
#[allow(unused_imports)]
use crate::identifiers::{invalid_name, is_known, unknown_database, valid_identifier};
use crate::json::{rows_to_json, Json, JsonView, Object, Row, RowView};
#[allow(unused_imports)]
use crate::json::{rows_json, rows_view};
use crate::query::{OwnedParam, Pagination, Query, QueryView, Reply};
#[allow(unused_imports)]
use crate::query::{page_limit, page_offset, text_query, ParamView};
use crate::sql::{page_text, row_count_text, TABLE_EXISTS};
#[allow(unused_imports)]
use crate::sql::{is_count, is_page, page_sql};

verus! {

/// What is answered where a database has no such table.
pub open spec fn no_table(database: Seq<char>, table: Seq<char>) -> ApiErrorView {
    ApiErrorView {
        status: Status::NotFound,
        detail: "Table '"@ + table + "' not found in '"@ + database + "'"@,
    }
}

/// Accepts a table of which the database knows, by the rows of the statement that finds it.
pub fn ensure_table_exists(rows: &Vec<Row>, database: &str, table: &str) -> (checked: Result<
    (),
    ApiError,
>)
    ensures
        match checked {
            Ok(()) => rows@.len() > 0,
            Err(error) => rows@.len() == 0 && error@ == no_table(database@, table@),
        },
{
    if rows.len() > 0 {
        return Ok(());
    }
    let mut detail = "Table '".to_string();
    detail.append(table);
    detail.append("' not found in '");
    detail.append(database);
    detail.append("'");
    Err(ApiError::not_found(detail.as_str()))
}

/// The statement that reads a page of `table`.
pub open spec fn page_query(
    database: Seq<char>,
    table: Seq<char>,
    limit: i64,
    offset: i64,
) -> QueryView {
    QueryView {
        database,
        sql: page_sql(table),
        params: seq![ParamView::I64(limit as int), ParamView::I64(offset as int)],
        write: false,
    }
}

fn ask_page(database: &str, table: &str, limit: i64, offset: i64) -> (query: Query)
    ensures
        query@ == page_query(database@, table@, limit, offset),
{
    let mut query = Query::plain(database, page_text(table).as_str());
    query.bind(OwnedParam::I64(limit));
    query.bind(OwnedParam::I64(offset));
    assert(query@.params =~= seq![ParamView::I64(limit as int), ParamView::I64(offset as int)]);
    query
}

/// A page of `table`.
pub open spec fn page_report(
    database: Seq<char>,
    table: Seq<char>,
    limit: i64,
    offset: i64,
    rows: Seq<RowView>,
    total: int,
) -> JsonView {
    JsonView::Object(
        map![
            "database"@ => JsonView::text(database),
            "table"@ => JsonView::text(table),
            "rows"@ => rows_json(rows),
            "pagination"@ => JsonView::Object(
                map![
                    "limit"@ => JsonView::number(limit as int),
                    "offset"@ => JsonView::number(offset as int),
                    "total"@ => JsonView::number(total),
                ],
            ),
        ],
    )
}

/// The answer to a request for a page of `table`: the table has to be there, the page is read,
/// and a count that fails is reported as 0.
pub open spec fn table_rows_answer(
    state: AppState,
    header: Option<Seq<u8>>,
    database: Seq<char>,
    table: Seq<char>,
    pagination: Pagination,
    replies: Replies,
) -> ResponseView {
    let limit = page_limit(pagination.limit);
    let offset = page_offset(pagination.offset);
    if !admitted(opt_text(state.settings().api_key), header) {
        Err(not_admitted())
    } else if !is_known(database) {
        Err(unknown_database(database))
    } else if !valid_identifier(table) {
        Err(invalid_name("table"@))
    } else {
        match replies(0, text_query(database, TABLE_EXISTS@, table)) {
            Err(error) => Err(error),
            Ok(found) => if found.len() == 0 {
                Err(no_table(database, table))
            } else {
                match replies(1, page_query(database, table, limit, offset)) {
                    Err(error) => Err(error),
                    Ok(rows) => Ok(
                        page_report(
                            database,
                            table,
                            limit,
                            offset,
                            rows,
                            reported_count(replies(2, row_count_query(database, table)), 0),
                        ),
                    ),
                }
            },
        }
    }
}

/// The statements of a request for a page of `table`: whether the table is there, where it is the
/// page, and where that could be read the count.
pub open spec fn table_rows_asked(
    state: AppState,
    header: Option<Seq<u8>>,
    database: Seq<char>,
    table: Seq<char>,
    pagination: Pagination,
    replies: Replies,
) -> Seq<QueryView> {
    let exists_query = text_query(database, TABLE_EXISTS@, table);
    let page = page_query(
        database,
        table,
        page_limit(pagination.limit),
        page_offset(pagination.offset),
    );
    if !(admitted(opt_text(state.settings().api_key), header) && is_known(database)
        && valid_identifier(table)) {
        Seq::empty()
    } else if !(replies(0, exists_query) matches Ok(found) && found.len() > 0) {
        seq![exists_query]
    } else if replies(1, page) is Err {
        seq![exists_query, page]
    } else {
        seq![exists_query, page, row_count_query(database, table)]
    }
}

/// A request for a page of a table that waits for a statement.
#[derive(Debug)]
pub struct TableRows {
    database: String,
    table: String,
    limit: i64,
    offset: i64,
    stage: Stage,
}

#[derive(Debug)]
enum Stage {
    /// Whether the table is there is not known yet.
    Exists,
    /// The page is not read yet.
    Page,
    /// The rows of the table are not counted yet.
    Count { rows: Vec<Row> },
}

/// Starts a request for a page of `table`.
pub fn get_table_rows(
    header: Option<&[u8]>,
    state: &AppState,
    database: &str,
    table: &str,
    pagination: Pagination,
) -> (step: Step<TableRows, Response>)
    ensures
        step_wf(step),
        step is Ask == (admitted(opt_text(state.settings().api_key), opt_bytes(header))
            && is_known(database@) && valid_identifier(table@)),
        forall|replies: Replies| #[trigger]
            step_outcome(step, replies, 0) == table_rows_answer(
                *state,
                opt_bytes(header),
                database@,
                table@,
                pagination,
                replies,
            ),
        forall|replies: Replies| #[trigger]
            step_asked(step, replies, 0) =~= table_rows_asked(
                *state,
                opt_bytes(header),
                database@,
                table@,
                pagination,
                replies,
            ),
{
    if let Err(error) = authorize(header, state) {
        return Step::Done { result: Err(error) };
    }
    if let Err(error) = ensure_database(database) {
        return Step::Done { result: Err(error) };
    }
    if let Err(error) = ensure_identifier("table", table) {
        return Step::Done { result: Err(error) };
    }
    let (limit, offset) = pagination.normalized();
    let next = TableRows {
        database: database.to_string(),
        table: table.to_string(),
        limit,
        offset,
        stage: Stage::Exists,
    };
    Step::Ask { query: Query::with_text(database, TABLE_EXISTS, table), next }
}

impl TableRows {
    spec fn report(&self, rows: Seq<RowView>, replies: Replies, n: nat) -> ResponseView {
        Ok(
            page_report(
                self.database@,
                self.table@,
                self.limit,
                self.offset,
                rows,
                reported_count(replies(n, row_count_query(self.database@, self.table@)), 0),
            ),
        )
    }

    spec fn page_asked(&self, replies: Replies, n: nat) -> Seq<QueryView> {
        let page = page_query(self.database@, self.table@, self.limit, self.offset);
        if replies(n, page) is Err {
            seq![page]
        } else {
            seq![page, row_count_query(self.database@, self.table@)]
        }
    }

    spec fn page(&self, replies: Replies, n: nat) -> ResponseView {
        match replies(n, page_query(self.database@, self.table@, self.limit, self.offset)) {
            Err(error) => Err(error),
            Ok(rows) => self.report(rows, replies, n + 1),
        }
    }
}

impl Flow for TableRows {
    type Outcome = Response;

    type OutcomeView = ResponseView;

    open spec fn outcome_view(outcome: Response) -> ResponseView {
        response_view(outcome)
    }

    closed spec fn wf(&self) -> bool {
        is_known(self.database@) && valid_identifier(self.table@)
    }

    closed spec fn pending(&self) -> QueryView {
        match self.stage {
            Stage::Exists => text_query(self.database@, TABLE_EXISTS@, self.table@),
            Stage::Page => page_query(self.database@, self.table@, self.limit, self.offset),
            Stage::Count { rows } => row_count_query(self.database@, self.table@),
        }
    }

    open spec fn parts(&self) -> nat {
        1
    }

    closed spec fn left(&self) -> nat {
        match self.stage {
            Stage::Exists => 3,
            Stage::Page => 2,
            Stage::Count { rows } => 1,
        }
    }

    closed spec fn outcome(&self, replies: Replies, n: nat) -> ResponseView {
        match self.stage {
            Stage::Exists => match replies(n, self.pending()) {
                Err(error) => Err(error),
                Ok(found) => if found.len() == 0 {
                    Err(no_table(self.database@, self.table@))
                } else {
                    self.page(replies, n + 1)
                },
            },
            Stage::Page => self.page(replies, n),
            Stage::Count { rows } => self.report(rows_view(rows@), replies, n),
        }
    }

    closed spec fn asked(&self, replies: Replies, n: nat) -> Seq<QueryView> {
        match self.stage {
            Stage::Exists => seq![self.pending()] + (if replies(n, self.pending()) matches Ok(found)
                && found.len() > 0 {
                self.page_asked(replies, n + 1)
            } else {
                Seq::empty()
            }),
            Stage::Page => self.page_asked(replies, n),
            Stage::Count { rows } => seq![self.pending()],
        }
    }

    open spec fn writes() -> bool {
        false
    }

    proof fn pending_permitted(&self) {
        match self.stage {
            Stage::Exists => {},
            Stage::Page => {
                assert(is_page(self.pending(), self.table@));
            },
            Stage::Count { rows } => {
                assert(is_count(self.pending(), self.table@));
            },
        }
    }

    fn resume(self, reply: Reply) -> (step: Step<TableRows, Response>) {
        let TableRows { database, table, limit, offset, stage } = self;
        match stage {
            Stage::Exists => match reply {
                Err(error) => Step::Done { result: Err(error) },
                Ok(rows) => {
                    if let Err(error) = ensure_table_exists(
                        &rows,
                        database.as_str(),
                        table.as_str(),
                    ) {
                        return Step::Done { result: Err(error) };
                    }
                    let query = ask_page(database.as_str(), table.as_str(), limit, offset);
                    let next = TableRows { database, table, limit, offset, stage: Stage::Page };
                    Step::Ask { query, next }
                },
            },
            Stage::Page => match reply {
                Err(error) => Step::Done { result: Err(error) },
                Ok(rows) => {
                    let sql = row_count_text(table.as_str());
                    let query = Query::plain(database.as_str(), sql.as_str());
                    let stage = Stage::Count { rows };
                    let next = TableRows { database, table, limit, offset, stage };
                    Step::Ask { query, next }
                },
            },
            Stage::Count { rows } => {
                let mut pagination = Object::new();
                pagination.put("limit", Json::number(limit));
                pagination.put("offset", Json::number(offset));
                pagination.put("total", Json::number(count_or(&reply, 0)));
                let mut object = Object::new();
                object.put("database", Json::text(database.as_str()));
                object.put("table", Json::text(table.as_str()));
                object.put("rows", rows_to_json(&rows));
                object.put("pagination", Json::Object(pagination));
                Step::Done { result: Ok(Json::Object(object)) }
            },
        }
    }
}

} // verus!
