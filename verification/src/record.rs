//! One row of a table, by its primary key.

use vstd::prelude::*;

use crate::auth::authorize;
#[allow(unused_imports)]
use crate::auth::{admitted, not_admitted, opt_bytes};
use crate::config::AppState;
#[allow(unused_imports)]
use crate::config::opt_text;
use crate::error::{ApiError, ApiErrorView};
#[allow(unused_imports)]
use crate::error::Status;
use crate::flow::{Flow, Replies, Response, ResponseView, Step};
#[allow(unused_imports)]
use crate::flow::{response_view, step_asked, step_outcome, step_wf};
use crate::identifiers::{ensure_database, ensure_identifier};
#[allow(unused_imports)]
use crate::identifiers::{invalid_name, is_known, unknown_database, valid_identifier};
use crate::json::{Datum, Json, JsonView, Object, Row, RowView};
#[allow(unused_imports)]
use crate::json::{row_json, rows_view, DatumView};
use crate::query::{OwnedParam, Query, QueryView, Reply};
#[allow(unused_imports)]
use crate::query::{reply_view, text_query, ParamView, ReplyView};
use crate::sql::{row_text, NAMED_COLUMN, PRIMARY_KEY};
#[allow(unused_imports)]
use crate::sql::{is_read, row_sql};

verus! {

/// The columns that are tried in turn where a table declares no primary key.
pub const KEY_CANDIDATES: [&'static str; 6] = ["id", "ID", "uuid", "UUID", "pk", "rowid"];

/// The primary key that a table declares, by the rows of the statement that finds it.
pub open spec fn declared_key(rows: Seq<RowView>) -> Option<Seq<char>> {
    if rows.len() > 0 && rows[0].contains_key("column_name"@) {
        match rows[0]["column_name"@] {
            DatumView::Text(name) => Some(name),
            _ => None,
        }
    } else {
        None
    }
}

fn find_declared_key(rows: &Vec<Row>) -> (key: Option<String>)
    ensures
        opt_text(key) == declared_key(rows_view(rows@)),
{
    if rows.len() == 0 {
        return None;
    }
    match rows[0].get("column_name") {
        Some(Datum::Text(name)) => Some(name.clone()),
        _ => None,
    }
}

/// The statement that finds the column `column` of `table`.
pub open spec fn column_query(
    database: Seq<char>,
    table: Seq<char>,
    column: Seq<char>,
) -> QueryView {
    QueryView {
        database,
        sql: NAMED_COLUMN@,
        params: seq![ParamView::Text(table), ParamView::Text(column)],
        write: false,
    }
}

fn ask_column(database: &str, table: &str, column: &str) -> (query: Query)
    ensures
        query@ == column_query(database@, table@, column@),
{
    let mut query = Query::with_text(database, NAMED_COLUMN, table);
    query.bind(OwnedParam::Text(column.to_string()));
    assert(query@.params =~= seq![ParamView::Text(table@), ParamView::Text(column@)]);
    query
}

/// What is answered where a table has no primary key and none of the candidate columns.
pub open spec fn no_key(table: Seq<char>) -> ApiErrorView {
    ApiErrorView {
        status: Status::BadRequest,
        detail: "Cannot detect primary key for table '"@ + table + "'"@,
    }
}

/// What is answered where no row has the key.
pub open spec fn no_row(key: Seq<char>, record_id: Seq<char>) -> ApiErrorView {
    ApiErrorView {
        status: Status::NotFound,
        detail: "Row with "@ + key + "="@ + record_id + " not found"@,
    }
}

/// The row of `table` whose key is `record_id`.
pub open spec fn row_report(
    database: Seq<char>,
    table: Seq<char>,
    key: Seq<char>,
    row: RowView,
) -> JsonView {
    JsonView::Object(
        map![
            "database"@ => JsonView::text(database),
            "table"@ => JsonView::text(table),
            "primaryKey"@ => JsonView::text(key),
            "row"@ => row_json(row),
        ],
    )
}

/// What a request is answered once the key is known, where its next statement is number `n`. A key
/// that may not stand as an identifier is refused, and no statement is asked for.
pub open spec fn answer_by_key(
    database: Seq<char>,
    table: Seq<char>,
    record_id: Seq<char>,
    key: Seq<char>,
    replies: Replies,
    n: nat,
) -> ResponseView {
    if !valid_identifier(key) {
        Err(invalid_name("column"@))
    } else {
        match replies(n, text_query(database, row_sql(table, key), record_id)) {
            Err(error) => Err(error),
            Ok(rows) => if rows.len() == 0 {
                Err(no_row(key, record_id))
            } else {
                Ok(row_report(database, table, key, rows[0]))
            },
        }
    }
}

/// What a request is answered where the key is one of the candidates from number `i` on.
pub open spec fn answer_by_candidates(
    database: Seq<char>,
    table: Seq<char>,
    record_id: Seq<char>,
    i: int,
    replies: Replies,
    n: nat,
) -> ResponseView
    decreases KEY_CANDIDATES@.len() - i,
{
    if i >= KEY_CANDIDATES@.len() {
        Err(no_key(table))
    } else {
        let candidate = KEY_CANDIDATES@[i]@;
        match replies(n, column_query(database, table, candidate)) {
            Err(error) => Err(error),
            Ok(rows) => if rows.len() > 0 {
                answer_by_key(database, table, record_id, candidate, replies, n + 1)
            } else {
                answer_by_candidates(database, table, record_id, i + 1, replies, n + 1)
            },
        }
    }
}

/// The answer to a request for the row of `table` whose primary key is `record_id`.
pub open spec fn row_by_id_answer(
    state: AppState,
    header: Option<Seq<u8>>,
    database: Seq<char>,
    table: Seq<char>,
    record_id: Seq<char>,
    replies: Replies,
) -> ResponseView {
    if !admitted(opt_text(state.settings().api_key), header) {
        Err(not_admitted())
    } else if !is_known(database) {
        Err(unknown_database(database))
    } else if !valid_identifier(table) {
        Err(invalid_name("table"@))
    } else {
        match replies(0, text_query(database, PRIMARY_KEY@, table)) {
            Err(error) => Err(error),
            Ok(rows) => match declared_key(rows) {
                Some(key) => answer_by_key(database, table, record_id, key, replies, 1),
                None => answer_by_candidates(database, table, record_id, 0, replies, 1),
            },
        }
    }
}

/// The statements that are asked for once the key is known: one, or none where the key may not
/// stand as an identifier.
pub open spec fn asked_by_key(
    database: Seq<char>,
    table: Seq<char>,
    record_id: Seq<char>,
    key: Seq<char>,
) -> Seq<QueryView> {
    if valid_identifier(key) {
        seq![text_query(database, row_sql(table, key), record_id)]
    } else {
        Seq::empty()
    }
}

/// The statements that are asked for where the key is one of the candidates from number `i` on: up
/// to the first that the table has, and then that which reads the row.
pub open spec fn asked_by_candidates(
    database: Seq<char>,
    table: Seq<char>,
    record_id: Seq<char>,
    i: int,
    replies: Replies,
    n: nat,
) -> Seq<QueryView>
    decreases KEY_CANDIDATES@.len() - i,
{
    if i >= KEY_CANDIDATES@.len() {
        Seq::empty()
    } else {
        let candidate = KEY_CANDIDATES@[i]@;
        let query = column_query(database, table, candidate);
        seq![query] + match replies(n, query) {
            Err(_) => Seq::empty(),
            Ok(rows) => if rows.len() > 0 {
                asked_by_key(database, table, record_id, candidate)
            } else {
                asked_by_candidates(database, table, record_id, i + 1, replies, n + 1)
            },
        }
    }
}

/// The statements that are asked for after the one that finds the declared key.
pub open spec fn asked_after_key(
    database: Seq<char>,
    table: Seq<char>,
    record_id: Seq<char>,
    reply: ReplyView,
    replies: Replies,
    n: nat,
) -> Seq<QueryView> {
    match reply {
        Err(_) => Seq::empty(),
        Ok(rows) => match declared_key(rows) {
            Some(key) => asked_by_key(database, table, record_id, key),
            None => asked_by_candidates(database, table, record_id, 0, replies, n),
        },
    }
}

/// The statements of a request for the row of `table` whose primary key is `record_id`.
pub open spec fn row_by_id_asked(
    state: AppState,
    header: Option<Seq<u8>>,
    database: Seq<char>,
    table: Seq<char>,
    record_id: Seq<char>,
    replies: Replies,
) -> Seq<QueryView> {
    let query = text_query(database, PRIMARY_KEY@, table);
    if !(admitted(opt_text(state.settings().api_key), header) && is_known(database)
        && valid_identifier(table)) {
        Seq::empty()
    } else {
        seq![query] + asked_after_key(database, table, record_id, replies(0, query), replies, 1)
    }
}

/// A request for a row that waits for a statement.
#[derive(Debug)]
pub struct RowById {
    database: String,
    table: String,
    record_id: String,
    stage: Stage,
}

#[derive(Debug)]
enum Stage {
    /// Whether the table declares a primary key is not known yet.
    Key,
    /// Whether the table has the candidate column is not known yet.
    Candidate { number: usize },
    /// The row is not read yet.
    Read { key: String },
}

/// Starts a request for the row of `table` whose primary key is `record_id`.
pub fn get_row_by_id(
    header: Option<&[u8]>,
    state: &AppState,
    database: &str,
    table: &str,
    record_id: &str,
) -> (step: Step<RowById, Response>)
    ensures
        step_wf(step),
        step is Ask == (admitted(opt_text(state.settings().api_key), opt_bytes(header))
            && is_known(database@) && valid_identifier(table@)),
        forall|replies: Replies| #[trigger]
            step_outcome(step, replies, 0) == row_by_id_answer(
                *state,
                opt_bytes(header),
                database@,
                table@,
                record_id@,
                replies,
            ),
        forall|replies: Replies| #[trigger]
            step_asked(step, replies, 0) =~= row_by_id_asked(
                *state,
                opt_bytes(header),
                database@,
                table@,
                record_id@,
                replies,
            ),
{
    if let Err(error) = authorize(header, state) {
        return Step::Done { result: Err(error) };
    }
    if let Err(error) = ensure_database(database) {
        return Step::Done { result: Err(error) };
    }
    if let Err(error) = ensure_identifier("table", table) {
        return Step::Done { result: Err(error) };
    }
    let next = RowById {
        database: database.to_string(),
        table: table.to_string(),
        record_id: record_id.to_string(),
        stage: Stage::Key,
    };
    Step::Ask { query: Query::with_text(database, PRIMARY_KEY, table), next }
}

impl RowById {
    spec fn reachable(&self) -> bool {
        &&& is_known(self.database@)
        &&& valid_identifier(self.table@)
        &&& self.stage matches Stage::Candidate { number } ==> number < 6
        &&& self.stage matches Stage::Read { key } ==> valid_identifier(key@)
    }

    spec fn awaited(&self) -> QueryView {
        match self.stage {
            Stage::Key => text_query(self.database@, PRIMARY_KEY@, self.table@),
            Stage::Candidate { number } => column_query(
                self.database@,
                self.table@,
                KEY_CANDIDATES@[number as int]@,
            ),
            Stage::Read { key } => text_query(
                self.database@,
                row_sql(self.table@, key@),
                self.record_id@,
            ),
        }
    }

    spec fn ahead(&self) -> int {
        match self.stage {
            Stage::Key => 8,
            Stage::Candidate { number } => 7 - number,
            Stage::Read { key } => 1,
        }
    }

    spec fn answer(&self, replies: Replies, n: nat) -> ResponseView {
        let (database, table, record_id) = (self.database@, self.table@, self.record_id@);
        match self.stage {
            Stage::Key => match replies(n, self.awaited()) {
                Err(error) => Err(error),
                Ok(rows) => match declared_key(rows) {
                    Some(key) => answer_by_key(database, table, record_id, key, replies, n + 1),
                    None => answer_by_candidates(database, table, record_id, 0, replies, n + 1),
                },
            },
            Stage::Candidate { number } => answer_by_candidates(
                database,
                table,
                record_id,
                number as int,
                replies,
                n,
            ),
            Stage::Read { key } => answer_by_key(database, table, record_id, key@, replies, n),
        }
    }

    spec fn inquiries(&self, replies: Replies, n: nat) -> Seq<QueryView> {
        let (database, table, record_id) = (self.database@, self.table@, self.record_id@);
        match self.stage {
            Stage::Key => seq![self.awaited()] + asked_after_key(
                database,
                table,
                record_id,
                replies(n, self.awaited()),
                replies,
                n + 1,
            ),
            Stage::Candidate { number } => asked_by_candidates(
                database,
                table,
                record_id,
                number as int,
                replies,
                n,
            ),
            Stage::Read { key } => seq![self.awaited()],
        }
    }

    spec fn inquiries_after(
        step: Step<Self, Response>,
        replies: Replies,
        n: nat,
    ) -> Seq<QueryView> {
        match step {
            Step::Ask { query, next } => next.inquiries(replies, n),
            Step::Done { result } => Seq::empty(),
        }
    }

    spec fn answer_after(step: Step<Self, Response>, replies: Replies, n: nat) -> ResponseView {
        match step {
            Step::Ask { query, next } => next.answer(replies, n),
            Step::Done { result } => response_view(result),
        }
    }

    /// Goes on with the key, if it may stand as an identifier.
    fn read(self, key: &str) -> (step: Step<RowById, Response>)
        requires
            self.reachable(),
        ensures
            forall|replies: Replies, n: nat| #[trigger]
                Self::answer_after(step, replies, n) == answer_by_key(
                    self.database@,
                    self.table@,
                    self.record_id@,
                    key@,
                    replies,
                    n,
                ),
            forall|replies: Replies, n: nat| #[trigger]
                Self::inquiries_after(step, replies, n) =~= asked_by_key(
                    self.database@,
                    self.table@,
                    self.record_id@,
                    key@,
                ),
            step matches Step::Ask { query, next } ==> next.reachable() && query@ == next.awaited()
                && next.ahead() == 1,
    {
        if let Err(error) = ensure_identifier("column", key) {
            return Step::Done { result: Err(error) };
        }
        let RowById { database, table, record_id, stage } = self;
        let sql = row_text(table.as_str(), key);
        let query = Query::with_text(database.as_str(), sql.as_str(), record_id.as_str());
        let stage = Stage::Read { key: key.to_string() };
        Step::Ask { query, next: RowById { database, table, record_id, stage } }
    }

    /// Goes on with the candidate number `number`, if there is one.
    fn try_candidate(self, number: usize) -> (step: Step<RowById, Response>)
        requires
            self.reachable(),
            number <= 6,
        ensures
            forall|replies: Replies, n: nat| #[trigger]
                Self::answer_after(step, replies, n) == answer_by_candidates(
                    self.database@,
                    self.table@,
                    self.record_id@,
                    number as int,
                    replies,
                    n,
                ),
            forall|replies: Replies, n: nat| #[trigger]
                Self::inquiries_after(step, replies, n) =~= asked_by_candidates(
                    self.database@,
                    self.table@,
                    self.record_id@,
                    number as int,
                    replies,
                    n,
                ),
            step matches Step::Ask { query, next } ==> next.reachable() && query@ == next.awaited()
                && next.ahead() == 7 - number,
    {
        let RowById { database, table, record_id, stage } = self;
        if number < 6 {
            let query = ask_column(database.as_str(), table.as_str(), KEY_CANDIDATES[number]);
            let stage = Stage::Candidate { number };
            Step::Ask { query, next: RowById { database, table, record_id, stage } }
        } else {
            let mut detail = "Cannot detect primary key for table '".to_string();
            detail.append(table.as_str());
            detail.append("'");
            Step::Done { result: Err(ApiError::bad_request(detail.as_str())) }
        }
    }
}

impl Flow for RowById {
    type Outcome = Response;

    type OutcomeView = ResponseView;

    open spec fn outcome_view(outcome: Response) -> ResponseView {
        response_view(outcome)
    }

    closed spec fn wf(&self) -> bool {
        self.reachable()
    }

    closed spec fn pending(&self) -> QueryView {
        self.awaited()
    }

    open spec fn parts(&self) -> nat {
        1
    }

    closed spec fn left(&self) -> nat {
        self.ahead() as nat
    }

    closed spec fn outcome(&self, replies: Replies, n: nat) -> ResponseView {
        self.answer(replies, n)
    }

    closed spec fn asked(&self, replies: Replies, n: nat) -> Seq<QueryView> {
        self.inquiries(replies, n)
    }

    open spec fn writes() -> bool {
        false
    }

    proof fn pending_permitted(&self) {
        if let Stage::Read { key } = self.stage {
            assert(is_read(self.pending(), self.table@, key@));
        }
    }

    fn resume(self, reply: Reply) -> (step: Step<RowById, Response>) {
        let step = match reply {
            Err(error) => Step::Done { result: Err(error) },
            Ok(rows) => match &self.stage {
                Stage::Key => match find_declared_key(&rows) {
                    Some(key) => self.read(key.as_str()),
                    None => self.try_candidate(0),
                },
                Stage::Candidate { number } => {
                    let number: usize = *number;
                    if rows.len() > 0 {
                        self.read(KEY_CANDIDATES[number])
                    } else {
                        self.try_candidate(number + 1)
                    }
                },
                Stage::Read { key } => if rows.len() == 0 {
                    let mut detail = "Row with ".to_string();
                    detail.append(key.as_str());
                    detail.append("=");
                    detail.append(self.record_id.as_str());
                    detail.append(" not found");
                    Step::Done { result: Err(ApiError::not_found(detail.as_str())) }
                } else {
                    let mut object = Object::new();
                    object.put("database", Json::text(self.database.as_str()));
                    object.put("table", Json::text(self.table.as_str()));
                    object.put("primaryKey", Json::text(key.as_str()));
                    object.put("row", rows[0].to_json());
                    Step::Done { result: Ok(Json::Object(object)) }
                },
            },
        };
        assert forall|replies: Replies, n: nat| #![trigger self.outcome(replies, n)]
            replies(n, self.awaited()) == reply_view(reply) implies self.answer(replies, n)
            == Self::answer_after(step, replies, n + 1) by {}
        assert forall|replies: Replies, n: nat| #![trigger self.asked(replies, n)]
            replies(n, self.awaited()) == reply_view(reply) implies self.inquiries(replies, n)
            =~= seq![self.awaited()] + Self::inquiries_after(step, replies, n + 1) by {}
        step
    }
}

} // verus!
