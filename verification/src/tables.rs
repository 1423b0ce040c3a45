//! The tables of one database, each with its columns.

use vstd::prelude::*;

use crate::auth::authorize;
#[allow(unused_imports)]
use crate::auth::{admitted, not_admitted, opt_bytes};
use crate::config::AppState;
#[allow(unused_imports)]
use crate::config::opt_text;
use crate::counts::{count_or, table_name, table_row_count_query};
#[allow(unused_imports)]
use crate::counts::{listed_name, reported_count, row_count_query};
use crate::error::ApiErrorView;
use crate::flow::{Flow, Replies, Response, ResponseView, Step};
#[allow(unused_imports)]
use crate::flow::{response_view, step_asked, step_outcome, step_wf};
use crate::identifiers::ensure_database;
#[allow(unused_imports)]
use crate::identifiers::{is_known, unknown_database, valid_identifier};
use crate::json::{rows_to_json, Array, Json, JsonView, Object, Row, RowView};
#[allow(unused_imports)]
use crate::json::{rows_json, rows_view};
use crate::query::{Query, QueryView, Reply};
#[allow(unused_imports)]
use crate::query::{plain_query, reply_view, text_query, ReplyView};
use crate::sql::{TABLE_COLUMNS, TABLE_NAMES};
#[allow(unused_imports)]
use crate::sql::is_count;

verus! {

/// What is reported of a table: its name, its columns, the number of its rows.
pub open spec fn table_detail(name: Seq<char>, columns: Seq<RowView>, count: int) -> JsonView {
    JsonView::Object(
        map![
            "name"@ => JsonView::text(name),
            "columns"@ => rows_json(columns),
            "rows"@ => JsonView::number(count),
        ],
    )
}

/// The statement that lists the columns of the table that `row` lists.
pub open spec fn columns_query(database: Seq<char>, row: RowView) -> QueryView {
    text_query(database, TABLE_COLUMNS@, listed_name(row))
}

/// How many statements come before the one that lists the columns of table number `k`: for each
/// earlier table the one for its columns, and where its name may stand in a statement the one that
/// counts its rows.
pub open spec fn columns_number(rows: Seq<RowView>, k: int) -> nat
    decreases k,
{
    if k <= 0 {
        0
    } else if valid_identifier(listed_name(rows[k - 1])) {
        columns_number(rows, k - 1) + 2
    } else {
        columns_number(rows, k - 1) + 1
    }
}

/// What listing the columns of table number `k` comes to, where the first statement for a table is
/// number `n`.
pub open spec fn columns_reply(
    database: Seq<char>,
    rows: Seq<RowView>,
    k: int,
    replies: Replies,
    n: nat,
) -> ReplyView {
    replies(n + columns_number(rows, k), columns_query(database, rows[k]))
}

/// The number of rows that is reported of table number `k`: what the statement after the one for
/// its columns counts. A table whose name may not stand in a statement, or whose counting
/// statement fails, counts -1 rows.
pub open spec fn detail_count(
    database: Seq<char>,
    rows: Seq<RowView>,
    k: int,
    replies: Replies,
    n: nat,
) -> int {
    let name = listed_name(rows[k]);
    if valid_identifier(name) {
        reported_count(
            replies(n + columns_number(rows, k) + 1, row_count_query(database, name)),
            -1,
        )
    } else {
        -1
    }
}

/// Whether table number `k` is the first whose columns cannot be listed.
pub open spec fn fails_first(
    database: Seq<char>,
    rows: Seq<RowView>,
    k: int,
    replies: Replies,
    n: nat,
) -> bool {
    &&& 0 <= k < rows.len()
    &&& columns_reply(database, rows, k, replies, n) is Err
    &&& forall|j: int| 0 <= j < k ==> #[trigger] columns_reply(database, rows, j, replies, n) is Ok
}

/// What is reported of the tables, each in its place; or the error of the first whose columns
/// cannot be listed.
pub open spec fn table_details(
    database: Seq<char>,
    rows: Seq<RowView>,
    replies: Replies,
    n: nat,
) -> Result<Seq<JsonView>, ApiErrorView> {
    if exists|k: int| #[trigger] fails_first(database, rows, k, replies, n) {
        let k = choose|k: int| #[trigger] fails_first(database, rows, k, replies, n);
        Err(columns_reply(database, rows, k, replies, n)->Err_0)
    } else {
        Ok(
            Seq::new(
                rows.len(),
                |k: int|
                    table_detail(
                        listed_name(rows[k]),
                        columns_reply(database, rows, k, replies, n)->Ok_0,
                        detail_count(database, rows, k, replies, n),
                    ),
            ),
        )
    }
}

/// The statements for the tables from number `i` on, where the first of them is number `n`: for
/// each table the one for its columns and the one that counts its rows. A table whose columns
/// cannot be listed is the last.
pub open spec fn details_asked(
    database: Seq<char>,
    rows: Seq<RowView>,
    i: int,
    replies: Replies,
    n: nat,
) -> Seq<QueryView>
    decreases rows.len() - i,
{
    if i >= rows.len() {
        Seq::empty()
    } else {
        let query = columns_query(database, rows[i]);
        let name = listed_name(rows[i]);
        if replies(n, query) is Err {
            seq![query]
        } else if valid_identifier(name) {
            seq![query, row_count_query(database, name)] + details_asked(
                database,
                rows,
                i + 1,
                replies,
                n + 2,
            )
        } else {
            seq![query] + details_asked(database, rows, i + 1, replies, n + 1)
        }
    }
}

/// The tables from number `i` on, after `done`, where the statements from number `n` on come to
/// `replies`. A table whose columns cannot be listed ends the list with its error. One whose name
/// may not stand in a statement, or whose counting statement fails, counts -1 rows.
spec fn details_from(
    database: Seq<char>,
    rows: Seq<RowView>,
    i: int,
    done: Seq<JsonView>,
    replies: Replies,
    n: nat,
) -> Result<Seq<JsonView>, ApiErrorView>
    decreases rows.len() - i,
{
    if i >= rows.len() {
        Ok(done)
    } else {
        let name = listed_name(rows[i]);
        match replies(n, text_query(database, TABLE_COLUMNS@, name)) {
            Ok(columns) => if valid_identifier(name) {
                let count = reported_count(replies(n + 1, row_count_query(database, name)), -1);
                details_from(
                    database,
                    rows,
                    i + 1,
                    done.push(table_detail(name, columns, count)),
                    replies,
                    n + 2,
                )
            } else {
                details_from(
                    database,
                    rows,
                    i + 1,
                    done.push(table_detail(name, columns, -1)),
                    replies,
                    n + 1,
                )
            },
            Err(error) => Err(error),
        }
    }
}

/// Going from table to table comes to what is reported of each.
proof fn lemma_details_from(
    database: Seq<char>,
    rows: Seq<RowView>,
    i: int,
    done: Seq<JsonView>,
    replies: Replies,
    n: nat,
)
    requires
        0 <= i == done.len() <= rows.len(),
        forall|k: int|
            0 <= k < i ==> #[trigger] columns_reply(database, rows, k, replies, n) is Ok && done[k]
                == table_detail(
                listed_name(rows[k]),
                columns_reply(database, rows, k, replies, n)->Ok_0,
                detail_count(database, rows, k, replies, n),
            ),
    ensures
        details_from(database, rows, i, done, replies, n + columns_number(rows, i))
            == table_details(database, rows, replies, n),
    decreases rows.len() - i,
{
    if i >= rows.len() {
        assert forall|k: int| !#[trigger] fails_first(database, rows, k, replies, n) by {
            if 0 <= k < rows.len() {
                assert(columns_reply(database, rows, k, replies, n) is Ok);
            }
        }
        let all = table_details(database, rows, replies, n)->Ok_0;
        assert forall|k: int| 0 <= k < rows.len() implies done[k] == all[k] by {
            assert(columns_reply(database, rows, k, replies, n) is Ok);
        }
        assert(done =~= all);
    } else {
        match columns_reply(database, rows, i, replies, n) {
            Ok(columns) => {
                let count = detail_count(database, rows, i, replies, n);
                let next = done.push(table_detail(listed_name(rows[i]), columns, count));
                assert forall|k: int| 0 <= k < i + 1 implies #[trigger] columns_reply(
                    database,
                    rows,
                    k,
                    replies,
                    n,
                ) is Ok && next[k] == table_detail(
                    listed_name(rows[k]),
                    columns_reply(database, rows, k, replies, n)->Ok_0,
                    detail_count(database, rows, k, replies, n),
                ) by {
                    if k < i {
                        assert(next[k] == done[k]);
                    }
                }
                lemma_details_from(database, rows, i + 1, next, replies, n);
            },
            Err(error) => {
                assert(fails_first(database, rows, i, replies, n));
                let k = choose|k: int| #[trigger] fails_first(database, rows, k, replies, n);
                if k < i {
                    assert(columns_reply(database, rows, k, replies, n) is Ok);
                } else if k > i {
                    assert(columns_reply(database, rows, i, replies, n) is Ok);
                }
            },
        }
    }
}

/// The list of the tables of `database`.
pub open spec fn tables_report(
    database: Seq<char>,
    tables: Result<Seq<JsonView>, ApiErrorView>,
) -> ResponseView {
    match tables {
        Ok(listed) => Ok(
            JsonView::Object(
                map![
                    "database"@ => JsonView::text(database),
                    "tables"@ => JsonView::Array(listed),
                ],
            ),
        ),
        Err(error) => Err(error),
    }
}

/// The answer to a request for the tables of `database`.
pub open spec fn list_tables_answer(
    state: AppState,
    header: Option<Seq<u8>>,
    database: Seq<char>,
    replies: Replies,
) -> ResponseView {
    if !admitted(opt_text(state.settings().api_key), header) {
        Err(not_admitted())
    } else if !is_known(database) {
        Err(unknown_database(database))
    } else {
        match replies(0, plain_query(database, TABLE_NAMES@)) {
            Ok(rows) => tables_report(
                database,
                table_details(database, rows, replies, 1),
            ),
            Err(error) => Err(error),
        }
    }
}

/// The statements that are asked for after the tables of `database` are listed.
pub open spec fn asked_after_names(
    database: Seq<char>,
    reply: ReplyView,
    replies: Replies,
    n: nat,
) -> Seq<QueryView> {
    match reply {
        Ok(rows) => details_asked(database, rows, 0, replies, n),
        Err(_) => Seq::empty(),
    }
}

/// The statements of a request for the tables of `database`.
pub open spec fn list_tables_asked(
    state: AppState,
    header: Option<Seq<u8>>,
    database: Seq<char>,
    replies: Replies,
) -> Seq<QueryView> {
    let query = plain_query(database, TABLE_NAMES@);
    if !(admitted(opt_text(state.settings().api_key), header) && is_known(database)) {
        Seq::empty()
    } else {
        seq![query] + asked_after_names(database, replies(0, query), replies, 1)
    }
}

/// A request for the tables of a database that waits for a statement.
#[derive(Debug)]
pub struct ListTables {
    database: String,
    stage: Stage,
}

#[derive(Debug)]
enum Stage {
    /// The tables are not known yet.
    Names,
    /// The columns of the current table are not known yet.
    Columns { tables: Tables },
    /// The rows of the current table are not counted yet.
    Count { tables: Tables, name: String, columns: Vec<Row> },
}

/// The tables of a database, some of them reported.
#[derive(Debug)]
struct Tables {
    rows: Vec<Row>,
    done: Array,
    current: usize,
}

impl Tables {
    spec fn name(&self) -> Seq<char> {
        listed_name(self.rows@[self.current as int]@)
    }

    /// Reports the current table, and goes on to the next.
    fn report_current(&mut self, name: &str, columns: &Vec<Row>, count: i64)
        requires
            old(self).current < old(self).rows@.len(),
        ensures
            final(self).rows == old(self).rows,
            final(self).current == old(self).current + 1,
            final(self).done@ == old(self).done@.push(
                table_detail(name@, rows_view(columns@), count as int),
            ),
    {
        assert(self.current < self.rows.len());
        let mut object = Object::new();
        object.put("name", Json::text(name));
        object.put("columns", rows_to_json(columns));
        object.put("rows", Json::number(count));
        self.done.push(Json::Object(object));
        self.current = self.current + 1;
    }
}

/// Starts a request for the tables of `database`.
pub fn list_tables(header: Option<&[u8]>, state: &AppState, database: &str) -> (step: Step<
    ListTables,
    Response,
>)
    ensures
        step_wf(step),
        step is Ask == (admitted(opt_text(state.settings().api_key), opt_bytes(header))
            && is_known(database@)),
        forall|replies: Replies| #[trigger]
            step_outcome(step, replies, 0) == list_tables_answer(
                *state,
                opt_bytes(header),
                database@,
                replies,
            ),
        forall|replies: Replies| #[trigger]
            step_asked(step, replies, 0) =~= list_tables_asked(
                *state,
                opt_bytes(header),
                database@,
                replies,
            ),
{
    if let Err(error) = authorize(header, state) {
        return Step::Done { result: Err(error) };
    }
    if let Err(error) = ensure_database(database) {
        return Step::Done { result: Err(error) };
    }
    let next = ListTables { database: database.to_string(), stage: Stage::Names };
    assert forall|replies: Replies| #[trigger] next.outcome(replies, 0) == list_tables_answer(
        *state,
        opt_bytes(header),
        database@,
        replies,
    ) by {
        if let Ok(rows) = replies(0, plain_query(database@, TABLE_NAMES@)) {
            lemma_details_from(database@, rows, 0, Seq::empty(), replies, 1);
        }
    }
    Step::Ask { query: Query::plain(database, TABLE_NAMES), next }
}

impl ListTables {
    spec fn reachable(&self) -> bool {
        &&& is_known(self.database@)
        &&& match self.stage {
            Stage::Names => true,
            Stage::Columns { tables } => tables.current < tables.rows@.len(),
            Stage::Count { tables, name, columns } => {
                &&& tables.current < tables.rows@.len()
                &&& name@ == tables.name()
                &&& valid_identifier(name@)
            },
        }
    }

    spec fn awaited(&self) -> QueryView {
        match self.stage {
            Stage::Names => plain_query(self.database@, TABLE_NAMES@),
            Stage::Columns { tables } => text_query(self.database@, TABLE_COLUMNS@, tables.name()),
            Stage::Count { tables, name, columns } => row_count_query(self.database@, name@),
        }
    }

    spec fn ahead(&self) -> (int, int) {
        match self.stage {
            Stage::Names => (2, 1),
            Stage::Columns { tables } => (1, 2 * (tables.rows@.len() - tables.current)),
            Stage::Count { tables, name, columns } => (
                1,
                2 * (tables.rows@.len() - tables.current) - 1,
            ),
        }
    }

    spec fn answer(&self, replies: Replies, n: nat) -> ResponseView {
        let database = self.database@;
        match self.stage {
            Stage::Names => match replies(n, plain_query(database, TABLE_NAMES@)) {
                Ok(rows) => tables_report(
                    database,
                    details_from(database, rows, 0, Seq::empty(), replies, n + 1),
                ),
                Err(error) => Err(error),
            },
            Stage::Columns { tables } => tables_report(
                database,
                details_from(
                    database,
                    rows_view(tables.rows@),
                    tables.current as int,
                    tables.done@,
                    replies,
                    n,
                ),
            ),
            Stage::Count { tables, name, columns } => {
                let count = reported_count(replies(n, row_count_query(database, name@)), -1);
                tables_report(
                    database,
                    details_from(
                        database,
                        rows_view(tables.rows@),
                        tables.current + 1,
                        tables.done@.push(table_detail(name@, rows_view(columns@), count)),
                        replies,
                        n + 1,
                    ),
                )
            },
        }
    }

    spec fn inquiries(&self, replies: Replies, n: nat) -> Seq<QueryView> {
        let database = self.database@;
        match self.stage {
            Stage::Names => seq![self.awaited()] + asked_after_names(
                database,
                replies(n, self.awaited()),
                replies,
                n + 1,
            ),
            Stage::Columns { tables } => details_asked(
                database,
                rows_view(tables.rows@),
                tables.current as int,
                replies,
                n,
            ),
            Stage::Count { tables, name, columns } => seq![self.awaited()] + details_asked(
                database,
                rows_view(tables.rows@),
                tables.current + 1,
                replies,
                n + 1,
            ),
        }
    }

    spec fn inquiries_after(
        step: Step<Self, Response>,
        replies: Replies,
        n: nat,
    ) -> Seq<QueryView> {
        match step {
            Step::Ask { query, next } => next.inquiries(replies, n),
            Step::Done { result } => Seq::empty(),
        }
    }

    spec fn answer_after(step: Step<Self, Response>, replies: Replies, n: nat) -> ResponseView {
        match step {
            Step::Ask { query, next } => next.answer(replies, n),
            Step::Done { result } => response_view(result),
        }
    }

    /// Goes on with the current table, if there is one.
    fn ask_columns(database: String, tables: Tables) -> (step: Step<ListTables, Response>)
        requires
            is_known(database@),
            tables.current <= tables.rows@.len(),
        ensures
            forall|replies: Replies, n: nat| #[trigger]
                Self::answer_after(step, replies, n) == tables_report(
                    database@,
                    details_from(
                        database@,
                        rows_view(tables.rows@),
                        tables.current as int,
                        tables.done@,
                        replies,
                        n,
                    ),
                ),
            forall|replies: Replies, n: nat| #[trigger]
                Self::inquiries_after(step, replies, n) =~= details_asked(
                    database@,
                    rows_view(tables.rows@),
                    tables.current as int,
                    replies,
                    n,
                ),
            step matches Step::Ask { query, next } ==> {
                &&& next.reachable()
                &&& query@ == next.awaited()
                &&& next.ahead() == (1int, 2 * (tables.rows@.len() - tables.current))
            },
    {
        if tables.current < tables.rows.len() {
            let name = table_name(&tables.rows[tables.current]);
            let query = Query::with_text(database.as_str(), TABLE_COLUMNS, name.as_str());
            Step::Ask { query, next: ListTables { database, stage: Stage::Columns { tables } } }
        } else {
            let mut object = Object::new();
            object.put("database", Json::text(database.as_str()));
            object.put("tables", Json::Array(tables.done));
            Step::Done { result: Ok(Json::Object(object)) }
        }
    }
}

impl Flow for ListTables {
    type Outcome = Response;

    type OutcomeView = ResponseView;

    open spec fn outcome_view(outcome: Response) -> ResponseView {
        response_view(outcome)
    }

    closed spec fn wf(&self) -> bool {
        self.reachable()
    }

    closed spec fn pending(&self) -> QueryView {
        self.awaited()
    }

    closed spec fn parts(&self) -> nat {
        self.ahead().0 as nat
    }

    closed spec fn left(&self) -> nat {
        self.ahead().1 as nat
    }

    closed spec fn outcome(&self, replies: Replies, n: nat) -> ResponseView {
        self.answer(replies, n)
    }

    closed spec fn asked(&self, replies: Replies, n: nat) -> Seq<QueryView> {
        self.inquiries(replies, n)
    }

    open spec fn writes() -> bool {
        false
    }

    proof fn pending_permitted(&self) {
        if let Stage::Count { tables, name, columns } = self.stage {
            assert(is_count(self.pending(), name@));
        }
    }

    fn resume(self, reply: Reply) -> (step: Step<ListTables, Response>) {
        let ListTables { database, stage } = self;
        let step = match stage {
            Stage::Names => match reply {
                Ok(rows) => Self::ask_columns(
                    database,
                    Tables { rows, done: Array::new(), current: 0 },
                ),
                Err(error) => Step::Done { result: Err(error) },
            },
            Stage::Columns { tables } => match reply {
                Ok(columns) => {
                    let name = table_name(&tables.rows[tables.current]);
                    match table_row_count_query(database.as_str(), name.as_str()) {
                        Ok(query) => Step::Ask {
                            query,
                            next: ListTables {
                                database,
                                stage: Stage::Count { tables, name, columns },
                            },
                        },
                        Err(_) => {
                            let mut tables = tables;
                            tables.report_current(name.as_str(), &columns, -1);
                            Self::ask_columns(database, tables)
                        },
                    }
                },
                Err(error) => Step::Done { result: Err(error) },
            },
            Stage::Count { tables, name, columns } => {
                let mut tables = tables;
                tables.report_current(name.as_str(), &columns, count_or(&reply, -1));
                Self::ask_columns(database, tables)
            },
        };
        assert forall|replies: Replies, n: nat| #![trigger self.outcome(replies, n)]
            replies(n, self.awaited()) == reply_view(reply) implies self.answer(replies, n)
            == Self::answer_after(step, replies, n + 1) by {}
        assert forall|replies: Replies, n: nat| #![trigger self.asked(replies, n)]
            replies(n, self.awaited()) == reply_view(reply) implies self.inquiries(replies, n)
            =~= seq![self.awaited()] + Self::inquiries_after(step, replies, n + 1) by {}
        step
    }
}

} // verus!
