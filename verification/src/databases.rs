//! The list of the databases, each with its tables.

use vstd::prelude::*;

use crate::auth::authorize;
#[allow(unused_imports)]
use crate::auth::{admitted, not_admitted, opt_bytes};
use crate::config::AppState;
#[allow(unused_imports)]
use crate::config::opt_text;
use crate::counts::{count_or, table_name, table_row_count_query};
#[allow(unused_imports)]
use crate::counts::{listed_name, reported_count, row_count_query};
use crate::error::{ApiError, ApiErrorView};
use crate::flow::{Flow, Replies, Response, ResponseView, Step};
#[allow(unused_imports)]
use crate::flow::{response_view, step_asked, step_outcome, step_wf};
use crate::identifiers::DATABASES;
#[allow(unused_imports)]
use crate::identifiers::valid_identifier;
use crate::json::{Array, Datum, Json, JsonView, Object, Row, RowView};
#[allow(unused_imports)]
use crate::json::{rows_view, DatumView};
use crate::query::{Query, QueryView, Reply};
#[allow(unused_imports)]
use crate::query::{plain_query, reply_view};
use crate::sql::TABLE_SUMMARIES;
#[allow(unused_imports)]
use crate::sql::is_count;
use crate::text::first_chars;

verus! {

/// What is reported of a table: its name, the number of its columns, the number of its rows.
pub open spec fn table_summary(row: RowView, count: int) -> JsonView {
    let columns = if row.contains_key("column_count"@) {
        row["column_count"@]
    } else {
        DatumView::Null
    };
    JsonView::Object(
        map![
            "name"@ => JsonView::text(listed_name(row)),
            "columns"@ => JsonView::Datum(columns),
            "rows"@ => JsonView::number(count),
        ],
    )
}

fn summarize(row: &Row, count: i64) -> (json: Json)
    ensures
        json@ == table_summary(row@, count as int),
{
    let mut object = Object::new();
    object.put("name", Json::text(table_name(row).as_str()));
    let columns = match row.get("column_count") {
        Some(value) => value.copy(),
        None => Datum::Null,
    };
    object.put("columns", Json::Datum(columns));
    object.put("rows", Json::number(count));
    Json::Object(object)
}

/// How many of the first `k` tables are counted: those whose name may stand in a statement.
pub open spec fn counted_before(rows: Seq<RowView>, k: int) -> nat
    decreases k,
{
    if k <= 0 {
        0
    } else if valid_identifier(listed_name(rows[k - 1])) {
        counted_before(rows, k - 1) + 1
    } else {
        counted_before(rows, k - 1)
    }
}

/// The number of rows that is reported of table number `k`, where the first counting statement is
/// number `n`. A table whose name may not stand in a statement, and one whose counting statement
/// fails, count -1 rows.
pub open spec fn summary_count(
    database: Seq<char>,
    rows: Seq<RowView>,
    k: int,
    replies: Replies,
    n: nat,
) -> int {
    let name = listed_name(rows[k]);
    if valid_identifier(name) {
        reported_count(replies(n + counted_before(rows, k), row_count_query(database, name)), -1)
    } else {
        -1
    }
}

/// What is reported of the tables of a database, each in its place, where the first counting
/// statement is number `n`.
pub open spec fn table_summaries(
    database: Seq<char>,
    rows: Seq<RowView>,
    replies: Replies,
    n: nat,
) -> Seq<JsonView> {
    Seq::new(
        rows.len(),
        |k: int| table_summary(rows[k], summary_count(database, rows, k, replies, n)),
    )
}

/// The statements that count the tables from number `i` on.
pub open spec fn summaries_asked(
    database: Seq<char>,
    rows: Seq<RowView>,
    i: int,
) -> Seq<QueryView>
    decreases rows.len() - i,
{
    if i >= rows.len() {
        Seq::empty()
    } else if valid_identifier(listed_name(rows[i])) {
        seq![row_count_query(database, listed_name(rows[i]))] + summaries_asked(
            database,
            rows,
            i + 1,
        )
    } else {
        summaries_asked(database, rows, i + 1)
    }
}

/// The summaries of the tables from number `i` on, after `done`, where the statements from
/// number `n` on come to `replies`; and the number of the statement after them. A table whose name
/// may not stand in a statement, and one whose counting statement fails, count -1 rows.
spec fn summaries_from(
    database: Seq<char>,
    rows: Seq<RowView>,
    i: int,
    done: Seq<JsonView>,
    replies: Replies,
    n: nat,
) -> (Seq<JsonView>, nat)
    decreases rows.len() - i,
{
    if i >= rows.len() {
        (done, n)
    } else {
        let name = listed_name(rows[i]);
        if valid_identifier(name) {
            let count = reported_count(replies(n, row_count_query(database, name)), -1);
            summaries_from(
                database,
                rows,
                i + 1,
                done.push(table_summary(rows[i], count)),
                replies,
                n + 1,
            )
        } else {
            summaries_from(
                database,
                rows,
                i + 1,
                done.push(table_summary(rows[i], -1)),
                replies,
                n,
            )
        }
    }
}

/// Going from table to table comes to what is reported of each.
proof fn lemma_summaries_from(
    database: Seq<char>,
    rows: Seq<RowView>,
    i: int,
    done: Seq<JsonView>,
    replies: Replies,
    n: nat,
)
    requires
        0 <= i <= rows.len(),
        done == table_summaries(database, rows, replies, n).take(i),
    ensures
        summaries_from(database, rows, i, done, replies, n + counted_before(rows, i)) == (
            table_summaries(database, rows, replies, n),
            n + counted_before(rows, rows.len() as int),
        ),
    decreases rows.len() - i,
{
    let all = table_summaries(database, rows, replies, n);
    if i >= rows.len() {
        assert(all.take(i) =~= all);
    } else {
        assert(all.take(i).push(all[i]) =~= all.take(i + 1));
        lemma_summaries_from(database, rows, i + 1, all.take(i + 1), replies, n);
    }
}

/// What is reported of a database whose tables are known.
pub open spec fn database_entry(database: Seq<char>, tables: Seq<JsonView>) -> JsonView {
    JsonView::Object(
        map![
            "database"@ => JsonView::text(database),
            "tables"@ => JsonView::Array(tables),
            "totalTables"@ => JsonView::size(tables.len() as int),
        ],
    )
}

/// The first 200 characters of `text`, or all where it has fewer.
pub open spec fn excerpt(text: Seq<char>) -> Seq<char> {
    if text.len() <= 200 {
        text
    } else {
        text.take(200)
    }
}

/// What is reported of a database whose tables could not be listed.
pub open spec fn failed_entry(database: Seq<char>, error: ApiErrorView) -> JsonView {
    JsonView::Object(
        map![
            "database"@ => JsonView::text(database),
            "error"@ => JsonView::text(excerpt(error.detail)),
            "tables"@ => JsonView::Array(Seq::empty()),
            "totalTables"@ => JsonView::size(0),
        ],
    )
}

/// The statement that lists the tables of the database number `k`.
pub open spec fn summary_query(k: int) -> QueryView {
    plain_query(DATABASES@[k]@, TABLE_SUMMARIES@)
}

/// The number of the statement that lists the tables of the database number `k`: before it come,
/// for each earlier database, the one that lists its tables and those that count them.
pub open spec fn database_number(replies: Replies, k: int) -> nat
    decreases k,
{
    if k <= 0 {
        0
    } else {
        let before = database_number(replies, k - 1);
        match replies(before, summary_query(k - 1)) {
            Ok(rows) => before + 1 + counted_before(rows, rows.len() as int),
            Err(_) => before + 1,
        }
    }
}

/// What is reported of the database number `k`: its tables, or why they could not be listed.
pub open spec fn listed_database(replies: Replies, k: int) -> JsonView {
    let number = database_number(replies, k);
    let database = DATABASES@[k]@;
    match replies(number, summary_query(k)) {
        Ok(rows) => database_entry(
            database,
            table_summaries(database, rows, replies, number + 1),
        ),
        Err(error) => failed_entry(database, error),
    }
}

/// What is reported of the databases, each in its place.
pub open spec fn listed_databases(replies: Replies) -> Seq<JsonView> {
    Seq::new(DATABASES@.len(), |k: int| listed_database(replies, k))
}

/// The statements for the databases from number `k` on, where the first of them is number `n`: for
/// each database the one that lists its tables, and those that count them.
pub open spec fn databases_asked(k: int, replies: Replies, n: nat) -> Seq<QueryView>
    decreases DATABASES@.len() - k,
{
    if k >= DATABASES@.len() {
        Seq::empty()
    } else {
        seq![summary_query(k)] + match replies(n, summary_query(k)) {
            Ok(rows) => {
                let counts = summaries_asked(DATABASES@[k]@, rows, 0);
                counts + databases_asked(k + 1, replies, n + 1 + counts.len())
            },
            Err(_) => databases_asked(k + 1, replies, n + 1),
        }
    }
}

/// What is reported of the databases from number `k` on, after `done`, where the statements from
/// number `n` on come to `replies`.
spec fn databases_from(
    k: int,
    done: Seq<JsonView>,
    replies: Replies,
    n: nat,
) -> Seq<JsonView>
    decreases DATABASES@.len() - k,
{
    if k >= DATABASES@.len() {
        done
    } else {
        let database = DATABASES@[k]@;
        match replies(n, summary_query(k)) {
            Ok(rows) => {
                let (tables, m) = summaries_from(
                    database,
                    rows,
                    0,
                    Seq::empty(),
                    replies,
                    n + 1,
                );
                databases_from(k + 1, done.push(database_entry(database, tables)), replies, m)
            },
            Err(error) => databases_from(
                k + 1,
                done.push(failed_entry(database, error)),
                replies,
                n + 1,
            ),
        }
    }
}

/// Going from database to database comes to what is reported of each.
proof fn lemma_databases_from(k: int, done: Seq<JsonView>, replies: Replies)
    requires
        0 <= k <= DATABASES@.len(),
        done == listed_databases(replies).take(k),
    ensures
        databases_from(k, done, replies, database_number(replies, k)) == listed_databases(replies),
    decreases DATABASES@.len() - k,
{
    let all = listed_databases(replies);
    if k >= DATABASES@.len() {
        assert(all.take(k) =~= all);
    } else {
        let n = database_number(replies, k);
        assert(all.take(k).push(all[k]) =~= all.take(k + 1));
        if let Ok(rows) = replies(n, summary_query(k)) {
            let database = DATABASES@[k]@;
            assert(table_summaries(database, rows, replies, n + 1).take(0) =~= Seq::empty());
            lemma_summaries_from(database, rows, 0, Seq::empty(), replies, n + 1);
        }
        lemma_databases_from(k + 1, all.take(k + 1), replies);
    }
}

/// The list of the databases.
pub open spec fn databases_report(entries: Seq<JsonView>) -> JsonView {
    JsonView::Object(
        map![
            "databases"@ => JsonView::Array(entries),
            "total"@ => JsonView::size(entries.len() as int),
        ],
    )
}

/// The answer to a request for the list of the databases.
pub open spec fn list_databases_answer(
    state: AppState,
    header: Option<Seq<u8>>,
    replies: Replies,
) -> ResponseView {
    if !admitted(opt_text(state.settings().api_key), header) {
        Err(not_admitted())
    } else {
        Ok(databases_report(listed_databases(replies)))
    }
}

/// The statements of a request for the list of the databases.
pub open spec fn list_databases_asked(
    state: AppState,
    header: Option<Seq<u8>>,
    replies: Replies,
) -> Seq<QueryView> {
    if admitted(opt_text(state.settings().api_key), header) {
        databases_asked(0, replies, 0)
    } else {
        Seq::empty()
    }
}

/// A request for the list of the databases that waits for a statement.
#[derive(Debug)]
pub struct ListDatabases {
    /// What is reported of the databases before the current one.
    done: Array,
    /// How many databases come before the current one.
    current: usize,
    /// The tables of the current database, where they are known.
    tables: Option<TableCounts>,
}

/// The tables of a database, some of them counted.
#[derive(Debug)]
struct TableCounts {
    rows: Vec<Row>,
    /// What is reported of the tables before the current one.
    done: Array,
    /// How many tables come before the current one.
    current: usize,
}

impl TableCounts {
    /// Reports the current table with its number of rows, and goes on to the next.
    fn report_current(&mut self, count: i64)
        requires
            old(self).current < old(self).rows@.len(),
        ensures
            final(self).rows == old(self).rows,
            final(self).current == old(self).current + 1,
            final(self).done@ == old(self).done@.push(
                table_summary(old(self).rows@[old(self).current as int]@, count as int),
            ),
    {
        assert(self.current < self.rows.len());
        self.done.push(summarize(&self.rows[self.current], count));
        self.current = self.current + 1;
    }

    /// Reports the tables from the current one on whose name may not stand in a statement, up to
    /// the first whose name may, and hands back the statement that counts its rows.
    fn settle(&mut self, database: &str) -> (query: Option<Query>)
        requires
            old(self).current <= old(self).rows@.len(),
        ensures
            final(self).rows == old(self).rows,
            old(self).current <= final(self).current <= final(self).rows@.len(),
            forall|replies: Replies, n: nat| #[trigger]
                summaries_from(
                    database@,
                    rows_view(old(self).rows@),
                    old(self).current as int,
                    old(self).done@,
                    replies,
                    n,
                ) == summaries_from(
                    database@,
                    rows_view(old(self).rows@),
                    final(self).current as int,
                    final(self).done@,
                    replies,
                    n,
                ),
            summaries_asked(database@, rows_view(old(self).rows@), old(self).current as int)
                == summaries_asked(
                database@,
                rows_view(old(self).rows@),
                final(self).current as int,
            ),
            match query {
                Some(q) => final(self).current < final(self).rows@.len() && valid_identifier(
                    listed_name(final(self).rows@[final(self).current as int]@),
                ) && q@ == row_count_query(
                    database@,
                    listed_name(final(self).rows@[final(self).current as int]@),
                ),
                None => final(self).current == final(self).rows@.len(),
            },
    {
        while self.current < self.rows.len()
            invariant
                self.rows == old(self).rows,
                old(self).current <= self.current <= self.rows@.len(),
                forall|replies: Replies, n: nat| #[trigger]
                    summaries_from(
                        database@,
                        rows_view(old(self).rows@),
                        old(self).current as int,
                        old(self).done@,
                        replies,
                        n,
                    ) == summaries_from(
                        database@,
                        rows_view(old(self).rows@),
                        self.current as int,
                        self.done@,
                        replies,
                        n,
                    ),
                summaries_asked(database@, rows_view(old(self).rows@), old(self).current as int)
                    == summaries_asked(
                    database@,
                    rows_view(old(self).rows@),
                    self.current as int,
                ),
            decreases self.rows@.len() - self.current,
        {
            let name = table_name(&self.rows[self.current]);
            if let Ok(query) = table_row_count_query(database, name.as_str()) {
                return Some(query);
            }
            self.report_current(-1);
        }
        None
    }
}

fn report_database(database: &str, tables: Array) -> (json: Json)
    ensures
        json@ == database_entry(database@, tables@),
{
    let total = tables.len();
    let mut object = Object::new();
    object.put("database", Json::text(database));
    object.put("tables", Json::Array(tables));
    object.put("totalTables", Json::size(total));
    Json::Object(object)
}

fn report_failure(database: &str, error: &ApiError) -> (json: Json)
    ensures
        json@ == failed_entry(database@, error@),
{
    let mut object = Object::new();
    object.put("database", Json::text(database));
    object.put("error", Json::text(first_chars(error.detail.as_str(), 200).as_str()));
    object.put("tables", Json::Array(Array::new()));
    object.put("totalTables", Json::size(0));
    Json::Object(object)
}

fn report_databases(entries: Array) -> (json: Json)
    ensures
        json@ == databases_report(entries@),
{
    let total = entries.len();
    let mut object = Object::new();
    object.put("databases", Json::Array(entries));
    object.put("total", Json::size(total));
    Json::Object(object)
}

/// Starts a request for the list of the databases.
pub fn list_databases(header: Option<&[u8]>, state: &AppState) -> (step: Step<
    ListDatabases,
    Response,
>)
    ensures
        step_wf(step),
        step is Ask == admitted(opt_text(state.settings().api_key), opt_bytes(header)),
        forall|replies: Replies| #[trigger]
            step_outcome(step, replies, 0) == list_databases_answer(
                *state,
                opt_bytes(header),
                replies,
            ),
        forall|replies: Replies| #[trigger]
            step_asked(step, replies, 0) =~= list_databases_asked(
                *state,
                opt_bytes(header),
                replies,
            ),
{
    if let Err(error) = authorize(header, state) {
        return Step::Done { result: Err(error) };
    }
    let next = ListDatabases { done: Array::new(), current: 0, tables: None };
    assert forall|replies: Replies| #[trigger] next.outcome(replies, 0) == list_databases_answer(
        *state,
        opt_bytes(header),
        replies,
    ) by {
        assert(listed_databases(replies).take(0) =~= Seq::empty());
        lemma_databases_from(0, Seq::empty(), replies);
    }
    Step::Ask { query: Query::plain(DATABASES[0], TABLE_SUMMARIES), next }
}

impl ListDatabases {
    spec fn reachable(&self) -> bool {
        &&& self.current < 10
        &&& self.tables matches Some(tables) ==> {
            &&& tables.current < tables.rows@.len()
            &&& valid_identifier(listed_name(tables.rows@[tables.current as int]@))
        }
    }

    spec fn awaited(&self) -> QueryView {
        match self.tables {
            Some(tables) => row_count_query(
                DATABASES@[self.current as int]@,
                listed_name(tables.rows@[tables.current as int]@),
            ),
            None => summary_query(self.current as int),
        }
    }

    spec fn ahead(&self) -> (int, int) {
        match self.tables {
            Some(tables) => (2 * (10 - self.current), tables.rows@.len() - tables.current),
            None => (2 * (10 - self.current) + 1, 1),
        }
    }

    spec fn answer(&self, replies: Replies, n: nat) -> ResponseView {
        let k = self.current as int;
        let database = DATABASES@[k]@;
        let entries = match self.tables {
            Some(tables) => {
                let (listed, m) = summaries_from(
                    database,
                    rows_view(tables.rows@),
                    tables.current as int,
                    tables.done@,
                    replies,
                    n,
                );
                databases_from(k + 1, self.done@.push(database_entry(database, listed)), replies, m)
            },
            None => databases_from(k, self.done@, replies, n),
        };
        Ok(databases_report(entries))
    }

    spec fn inquiries(&self, replies: Replies, n: nat) -> Seq<QueryView> {
        let k = self.current as int;
        match self.tables {
            Some(tables) => {
                let counts = summaries_asked(
                    DATABASES@[k]@,
                    rows_view(tables.rows@),
                    tables.current as int,
                );
                counts + databases_asked(k + 1, replies, n + counts.len())
            },
            None => databases_asked(k, replies, n),
        }
    }

    spec fn inquiries_after(
        step: Step<Self, Response>,
        replies: Replies,
        n: nat,
    ) -> Seq<QueryView> {
        match step {
            Step::Ask { query, next } => next.inquiries(replies, n),
            Step::Done { result } => Seq::empty(),
        }
    }

    spec fn answer_after(step: Step<Self, Response>, replies: Replies, n: nat) -> ResponseView {
        match step {
            Step::Ask { query, next } => next.answer(replies, n),
            Step::Done { result } => response_view(result),
        }
    }

    /// Goes on where everything up to the next statement is settled.
    fn settle(self) -> (step: Step<ListDatabases, Response>)
        requires
            self.current < 10,
            self.tables matches Some(tables) && tables.current <= tables.rows@.len(),
        ensures
            forall|replies: Replies, n: nat| #[trigger]
                self.answer(replies, n) == Self::answer_after(step, replies, n),
            forall|replies: Replies, n: nat| #[trigger]
                self.inquiries(replies, n) =~= Self::inquiries_after(step, replies, n),
            step matches Step::Ask { query, next } ==> {
                &&& next.reachable()
                &&& query@ == next.awaited()
                &&& next.ahead().0 < self.ahead().0 || next.ahead().0 == self.ahead().0
                    && next.ahead().1 <= self.ahead().1
            },
    {
        let ListDatabases { done, current, tables } = self;
        let mut done = done;
        let database = DATABASES[current];
        if let Some(tables) = tables {
            let mut tables = tables;
            if let Some(query) = tables.settle(database) {
                let next = ListDatabases { done, current, tables: Some(tables) };
                return Step::Ask { query, next };
            }
            done.push(report_database(database, tables.done));
        }
        Self::ask_from(done, current + 1)
    }

    /// Goes on with the database number `current`, if there is one.
    fn ask_from(done: Array, current: usize) -> (step: Step<ListDatabases, Response>)
        requires
            current <= 10,
        ensures
            forall|replies: Replies, n: nat| #[trigger]
                Self::answer_after(step, replies, n) == Ok::<JsonView, ApiErrorView>(
                    databases_report(databases_from(current as int, done@, replies, n)),
                ),
            forall|replies: Replies, n: nat| #[trigger]
                Self::inquiries_after(step, replies, n) =~= databases_asked(
                    current as int,
                    replies,
                    n,
                ),
            step matches Step::Ask { query, next } ==> {
                &&& next.reachable()
                &&& query@ == next.awaited()
                &&& next.ahead() == (2 * (10 - current) + 1, 1int)
            },
    {
        if current < 10 {
            let next = ListDatabases { done, current, tables: None };
            Step::Ask { query: Query::plain(DATABASES[current], TABLE_SUMMARIES), next }
        } else {
            Step::Done { result: Ok(report_databases(done)) }
        }
    }
}

impl Flow for ListDatabases {
    type Outcome = Response;

    type OutcomeView = ResponseView;

    open spec fn outcome_view(outcome: Response) -> ResponseView {
        response_view(outcome)
    }

    closed spec fn wf(&self) -> bool {
        self.reachable()
    }

    closed spec fn pending(&self) -> QueryView {
        self.awaited()
    }

    closed spec fn parts(&self) -> nat {
        self.ahead().0 as nat
    }

    closed spec fn left(&self) -> nat {
        self.ahead().1 as nat
    }

    closed spec fn outcome(&self, replies: Replies, n: nat) -> ResponseView {
        self.answer(replies, n)
    }

    closed spec fn asked(&self, replies: Replies, n: nat) -> Seq<QueryView> {
        self.inquiries(replies, n)
    }

    open spec fn writes() -> bool {
        false
    }

    proof fn pending_permitted(&self) {
        assert(DATABASES@[self.current as int]@ == self.pending().database);
        if let Some(tables) = self.tables {
            let name = listed_name(tables.rows@[tables.current as int]@);
            assert(is_count(self.pending(), name));
        }
    }

    fn resume(self, reply: Reply) -> (step: Step<ListDatabases, Response>) {
        let ListDatabases { done, current, tables } = self;
        match tables {
            None => match reply {
                Ok(rows) => {
                    let tables = TableCounts { rows, done: Array::new(), current: 0 };
                    let listed = ListDatabases { done, current, tables: Some(tables) };
                    assert forall|replies: Replies, n: nat| #![trigger self.outcome(replies, n)]
                        replies(n, self.awaited()) == reply_view(reply) implies self.answer(
                        replies,
                        n,
                    ) == listed.answer(replies, n + 1) by {}
                    assert forall|replies: Replies, n: nat| #![trigger self.asked(replies, n)]
                        replies(n, self.awaited()) == reply_view(reply) implies self.inquiries(
                        replies,
                        n,
                    ) =~= seq![self.awaited()] + listed.inquiries(replies, n + 1) by {}
                    listed.settle()
                },
                Err(error) => {
                    let mut done = done;
                    done.push(report_failure(DATABASES[current], &error));
                    let step = Self::ask_from(done, current + 1);
                    assert forall|replies: Replies, n: nat| #![trigger self.outcome(replies, n)]
                        replies(n, self.awaited()) == reply_view(reply) implies self.answer(
                        replies,
                        n,
                    ) == Self::answer_after(step, replies, n + 1) by {}
                    assert forall|replies: Replies, n: nat| #![trigger self.asked(replies, n)]
                        replies(n, self.awaited()) == reply_view(reply) implies self.inquiries(
                        replies,
                        n,
                    ) =~= seq![self.awaited()] + Self::inquiries_after(step, replies, n + 1) by {}
                    step
                },
            },
            Some(tables) => {
                let mut tables = tables;
                tables.report_current(count_or(&reply, -1));
                let counted = ListDatabases { done, current, tables: Some(tables) };
                assert forall|replies: Replies, n: nat| #![trigger self.outcome(replies, n)]
                    replies(n, self.awaited()) == reply_view(reply) implies self.answer(replies, n)
                    == counted.answer(replies, n + 1) by {}
                assert forall|replies: Replies, n: nat| #![trigger self.asked(replies, n)]
                    replies(n, self.awaited()) == reply_view(reply) implies self.inquiries(
                    replies,
                    n,
                ) =~= seq![self.awaited()] + counted.inquiries(replies, n + 1) by {}
                counted.settle()
            },
        }
    }
}

} // verus!
