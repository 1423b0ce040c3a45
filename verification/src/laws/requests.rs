//! What holds of the endpoints that list, read and insert.

use vstd::prelude::*;

#[allow(unused_imports)]
use crate::auth::admitted;
#[allow(unused_imports)]
use crate::config::{opt_text, AppState};
#[allow(unused_imports)]
use crate::counts::{listed_name, reported_count, row_count_query};
#[allow(unused_imports)]
use crate::databases::{
    database_entry, databases_report, failed_entry, summary_query, table_summary,
};
#[allow(unused_imports)]
use crate::entries::{lists, Pair};
#[allow(unused_imports)]
use crate::error::ApiErrorView;
#[allow(unused_imports)]
use crate::flow::{Replies, ResponseView};
#[allow(unused_imports)]
use crate::health::{health_answer, health_asked, health_query};
#[allow(unused_imports)]
use crate::identifiers::{is_known, valid_identifier, DATABASES};
#[allow(unused_imports)]
use crate::insert::{column_names, insert_answer, insert_asked};
#[allow(unused_imports)]
use crate::json::{row_json, rows_json, DatumView, JsonView, RowView};
#[allow(unused_imports)]
use crate::page::{table_rows_answer, table_rows_asked};
#[allow(unused_imports)]
use crate::query::{Pagination, ParamView, QueryView};
#[allow(unused_imports)]
use crate::record::{
    answer_by_candidates, asked_by_candidates, row_by_id_answer, row_by_id_asked, KEY_CANDIDATES,
};
#[allow(unused_imports)]
use crate::sql::{comma_list, placeholders};
#[allow(unused_imports)]
use crate::tables::{
    columns_number, columns_query, columns_reply, detail_count, list_tables_answer,
    list_tables_asked, table_detail, table_details,
};
#[allow(unused_imports)]
use crate::text::decimal;

verus! {

/// The member `key` of an object.
pub open spec fn member(json: JsonView, key: Seq<char>) -> Option<JsonView> {
    match json {
        JsonView::Object(members) => if members.contains_key(key) {
            Some(members[key])
        } else {
            None
        },
        _ => None,
    }
}

/// Whether a document is an object with these members and no other.
pub open spec fn has_members(json: JsonView, keys: Set<Seq<char>>) -> bool {
    json matches JsonView::Object(members) && members.dom() =~= keys
}

/// A text in a document.
pub open spec fn text_json(text: Seq<char>) -> Option<JsonView> {
    Some(JsonView::Datum(DatumView::Text(text)))
}

/// An integer in a document.
pub open spec fn int_json(n: int) -> Option<JsonView> {
    Some(JsonView::Datum(DatumView::Int(n)))
}

/// The statement that reads with the given text and values.
pub open spec fn reading(
    database: Seq<char>,
    sql: Seq<char>,
    params: Seq<ParamView>,
) -> QueryView {
    QueryView { database, sql, params, write: false }
}

/// The statement that counts the rows of a table.
pub open spec fn counting(database: Seq<char>, table: Seq<char>) -> QueryView {
    reading(
        database,
        "SELECT count(*) AS cnt FROM "@ + (seq!['"'] + table + seq!['"']),
        Seq::empty(),
    )
}

/// The rows of a table are counted by one statement, which names the table and takes no values.
pub proof fn law_counting(database: Seq<char>, table: Seq<char>)
    ensures
        row_count_query(database, table) == counting(database, table),
{
}

proof fn lemma_health_keys()
    ensures
        "status"@ != "databases"@,
        "status"@ != "ok"@,
        "databases"@ != "ok"@,
        "status"@ != "degraded"@,
        "databases"@ != "degraded"@,
        "ok"@ != "degraded"@,
        "status"@ != "healthy"@,
        "databases"@ != "healthy"@,
        "ok"@ != "healthy"@,
        "degraded"@ != "healthy"@,
{
    reveal_strlit("status");
    reveal_strlit("databases");
    reveal_strlit("ok");
    reveal_strlit("degraded");
    reveal_strlit("healthy");
    assert("status"@.len() == 6);
    assert("databases"@.len() == 9);
    assert("ok"@.len() == 2);
    assert("degraded"@.len() == 8);
    assert("healthy"@.len() == 7);
}

/// The health check asks every database, in their order, one statement that only asks for an answer.
/// It says of each database `ok` where it answers and `degraded` where it does not, and of nothing
/// else.
pub proof fn law_health_check(replies: Replies, i: int)
    requires
        0 <= i < 10,
    ensures
        health_asked().len() == 10,
        health_asked()[i] == reading(DATABASES@[i]@, "SELECT 1 AS ok"@, Seq::empty()),
        has_members(health_answer(replies), set!["status"@, "databases"@]),
        member(health_answer(replies), "databases"@) matches Some(databases) && member(
            databases,
            DATABASES@[i]@,
        ) == text_json(
            if replies(i as nat, reading(DATABASES@[i]@, "SELECT 1 AS ok"@, Seq::empty())) is Ok {
                "ok"@
            } else {
                "degraded"@
            },
        ),
{
    lemma_health_keys();
    let oks = Seq::new(10, |i: int| replies(i as nat, health_query(i)) is Ok);
    crate::laws::lemma_statuses(oks, i);
    assert(health_query(i) == reading(DATABASES@[i]@, "SELECT 1 AS ok"@, Seq::empty()));
    assert(oks[i] == (replies(i as nat, health_query(i)) is Ok));
    assert(health_answer(replies) == crate::health::health_report(oks));
}

proof fn lemma_list_keys()
    ensures
        "database"@ != "tables"@,
        "database"@ != "totalTables"@,
        "tables"@ != "totalTables"@,
        "database"@ != "error"@,
        "tables"@ != "error"@,
        "totalTables"@ != "error"@,
        "database"@ != "databases"@,
        "tables"@ != "databases"@,
        "totalTables"@ != "databases"@,
        "error"@ != "databases"@,
        "database"@ != "total"@,
        "tables"@ != "total"@,
        "totalTables"@ != "total"@,
        "error"@ != "total"@,
        "databases"@ != "total"@,
        "database"@ != "name"@,
        "tables"@ != "name"@,
        "totalTables"@ != "name"@,
        "error"@ != "name"@,
        "databases"@ != "name"@,
        "total"@ != "name"@,
        "database"@ != "columns"@,
        "tables"@ != "columns"@,
        "totalTables"@ != "columns"@,
        "error"@ != "columns"@,
        "databases"@ != "columns"@,
        "total"@ != "columns"@,
        "name"@ != "columns"@,
        "database"@ != "rows"@,
        "tables"@ != "rows"@,
        "totalTables"@ != "rows"@,
        "error"@ != "rows"@,
        "databases"@ != "rows"@,
        "total"@ != "rows"@,
        "name"@ != "rows"@,
        "columns"@ != "rows"@,
{
    reveal_strlit("database");
    reveal_strlit("tables");
    reveal_strlit("totalTables");
    reveal_strlit("error");
    reveal_strlit("databases");
    reveal_strlit("total");
    reveal_strlit("name");
    reveal_strlit("columns");
    reveal_strlit("rows");
    assert("database"@.len() == 8);
    assert("tables"@.len() == 6);
    assert("totalTables"@.len() == 11);
    assert("error"@.len() == 5);
    assert("databases"@.len() == 9);
    assert("total"@.len() == 5);
    assert("name"@.len() == 4);
    assert("columns"@.len() == 7);
    assert("rows"@.len() == 4);
    assert("error"@[0] == 'e' && "total"@[0] == 't');
    assert("name"@[0] == 'n' && "rows"@[0] == 'r');
}

/// The tables of a database are summarised after one statement that lists them with the numbers of
/// their columns, by name.
pub proof fn law_summary_statement(k: int)
    requires
        0 <= k < 10,
    ensures
        summary_query(k) == reading(
            DATABASES@[k]@,
            r#"
        SELECT table_name,
               (SELECT count(*) FROM information_schema.columns c2
                WHERE c2.table_schema = 'public' AND c2.table_name = c.table_name) AS column_count
        FROM information_schema.tables c
        WHERE table_schema = 'public' AND table_type = 'BASE TABLE'
        ORDER BY table_name
        "#@,
            Seq::empty(),
        ),
{
}

/// A database that could be listed is reported with its name, its tables and how many they are.
pub proof fn law_database_entry(database: Seq<char>, tables: Seq<JsonView>)
    requires
        tables.len() <= 9223372036854775807,
    ensures
        has_members(
            database_entry(database, tables),
            set!["database"@, "tables"@, "totalTables"@],
        ),
        member(database_entry(database, tables), "database"@) == text_json(database),
        member(database_entry(database, tables), "tables"@) == Some(JsonView::Array(tables)),
        member(database_entry(database, tables), "totalTables"@) == int_json(tables.len() as int),
{
    lemma_list_keys();
}

/// A database that could not be listed is reported with its name, the start of the error, no tables
/// and their number, which is zero.
pub proof fn law_failed_entry(database: Seq<char>, error: ApiErrorView)
    ensures
        has_members(
            failed_entry(database, error),
            set!["database"@, "error"@, "tables"@, "totalTables"@],
        ),
        member(failed_entry(database, error), "database"@) == text_json(database),
        member(failed_entry(database, error), "tables"@) == Some(JsonView::Array(Seq::empty())),
        member(failed_entry(database, error), "totalTables"@) == int_json(0),
        error.detail.len() <= 200 ==> member(failed_entry(database, error), "error"@) == text_json(
            error.detail,
        ),
        error.detail.len() > 200 ==> member(failed_entry(database, error), "error"@) == text_json(
            error.detail.take(200),
        ),
{
    lemma_list_keys();
}

/// The list of the databases holds them and how many they are.
pub proof fn law_databases_document(entries: Seq<JsonView>)
    requires
        entries.len() <= 9223372036854775807,
    ensures
        has_members(databases_report(entries), set!["databases"@, "total"@]),
        member(databases_report(entries), "databases"@) == Some(JsonView::Array(entries)),
        member(databases_report(entries), "total"@) == int_json(entries.len() as int),
{
    lemma_list_keys();
}

/// A table is summarised with its name, what the list says of the number of its columns, and the
/// number of its rows.
pub proof fn law_table_summary(row: RowView, count: int)
    ensures
        has_members(table_summary(row, count), set!["name"@, "columns"@, "rows"@]),
        member(table_summary(row, count), "name"@) == text_json(listed_name(row)),
        member(table_summary(row, count), "columns"@) == Some(
            JsonView::Datum(
                if row.contains_key("column_count"@) {
                    row["column_count"@]
                } else {
                    DatumView::Null
                },
            ),
        ),
        member(table_summary(row, count), "rows"@) == int_json(count),
{
    lemma_list_keys();
}

/// A table is listed with its name, its columns and the number of its rows.
pub proof fn law_table_detail(name: Seq<char>, columns: Seq<RowView>, count: int)
    ensures
        has_members(table_detail(name, columns, count), set!["name"@, "columns"@, "rows"@]),
        member(table_detail(name, columns, count), "name"@) == text_json(name),
        member(table_detail(name, columns, count), "columns"@) == Some(rows_json(columns)),
        member(table_detail(name, columns, count), "rows"@) == int_json(count),
{
    lemma_list_keys();
}

/// The columns of a table are listed by one statement, which takes the name of the table as its
/// value.
pub proof fn law_columns_statement(database: Seq<char>, row: RowView)
    ensures
        columns_query(database, row) == reading(
            database,
            r#"
            SELECT column_name, data_type, is_nullable, column_default
            FROM information_schema.columns
            WHERE table_schema = 'public' AND table_name = $1
            ORDER BY ordinal_position
            "#@,
            seq![ParamView::Text(listed_name(row))],
        ),
{
}

/// What is reported of a table comes from the statement with its number and the one after it, and
/// the number of rows is -1 where the name may not stand in a statement or the count fails.
pub proof fn law_detail_numbers(
    database: Seq<char>,
    rows: Seq<RowView>,
    k: int,
    replies: Replies,
    n: nat,
)
    ensures
        columns_reply(database, rows, k, replies, n) == replies(
            n + columns_number(rows, k),
            columns_query(database, rows[k]),
        ),
        !valid_identifier(listed_name(rows[k])) ==> detail_count(database, rows, k, replies, n)
            == -1,
        valid_identifier(listed_name(rows[k])) ==> detail_count(database, rows, k, replies, n)
            == match replies(
            n + columns_number(rows, k) + 1,
            counting(database, listed_name(rows[k])),
        ) {
            Ok(found) => reported_count(Ok(found), 0),
            Err(_) => -1,
        },
{
    law_counting(database, listed_name(rows[k]));
}

/// The tables of a database are listed by one statement, and its error is answered. Else the answer
/// is the name of the database with the tables, or the error of one of them.
#[verifier::rlimit(40)]
pub proof fn law_list_tables(
    state: AppState,
    header: Option<Seq<u8>>,
    database: Seq<char>,
    replies: Replies,
)
    requires
        admitted(opt_text(state.settings().api_key), header),
        is_known(database),
    ensures
        ({
            let names = reading(
                database,
                r#"
        SELECT table_name
        FROM information_schema.tables
        WHERE table_schema = 'public' AND table_type = 'BASE TABLE'
        ORDER BY table_name
        "#@,
                Seq::empty(),
            );
            let answer = list_tables_answer(state, header, database, replies);
            &&& list_tables_asked(state, header, database, replies).len() > 0
            &&& list_tables_asked(state, header, database, replies)[0] == names
            &&& replies(0, names) matches Err(error) ==> answer == Err::<JsonView, _>(error)
                && list_tables_asked(state, header, database, replies).len() == 1
            &&& replies(0, names) matches Ok(rows) ==> match table_details(
                database,
                rows,
                replies,
                1,
            ) {
                Ok(tables) => answer matches Ok(document) && has_members(
                    document,
                    set!["database"@, "tables"@],
                ) && member(document, "database"@) == text_json(database) && member(
                    document,
                    "tables"@,
                ) == Some(JsonView::Array(tables)),
                Err(error) => answer == Err::<JsonView, _>(error),
            }
        }),
{
    lemma_list_keys();
}

proof fn lemma_page_keys()
    ensures
        "database"@ != "table"@,
        "database"@ != "rows"@,
        "table"@ != "rows"@,
        "database"@ != "pagination"@,
        "table"@ != "pagination"@,
        "rows"@ != "pagination"@,
        "database"@ != "limit"@,
        "table"@ != "limit"@,
        "rows"@ != "limit"@,
        "pagination"@ != "limit"@,
        "database"@ != "offset"@,
        "table"@ != "offset"@,
        "rows"@ != "offset"@,
        "pagination"@ != "offset"@,
        "limit"@ != "offset"@,
        "database"@ != "total"@,
        "table"@ != "total"@,
        "rows"@ != "total"@,
        "pagination"@ != "total"@,
        "limit"@ != "total"@,
        "offset"@ != "total"@,
{
    reveal_strlit("database");
    reveal_strlit("table");
    reveal_strlit("rows");
    reveal_strlit("pagination");
    reveal_strlit("limit");
    reveal_strlit("offset");
    reveal_strlit("total");
    assert("database"@.len() == 8);
    assert("table"@.len() == 5);
    assert("rows"@.len() == 4);
    assert("pagination"@.len() == 10);
    assert("limit"@.len() == 5);
    assert("offset"@.len() == 6);
    assert("total"@.len() == 5);
    assert("table"@[0] == 't' && "limit"@[0] == 'l');
    assert("table"@[1] == 'a' && "total"@[1] == 'o');
    assert("limit"@[0] == 'l' && "total"@[0] == 't');
}

/// The statement that reads a page: its first value is the number of rows, its second the number of
/// rows before them.
pub open spec fn paging(
    database: Seq<char>,
    table: Seq<char>,
    limit: int,
    offset: int,
) -> QueryView {
    reading(
        database,
        "SELECT * FROM "@ + (seq!['"'] + table + seq!['"'])
            + " ORDER BY rowid LIMIT $1 OFFSET $2"@,
        Seq::empty().push(ParamView::I64(limit)).push(ParamView::I64(offset)),
    )
}

/// The number of rows that is read for a request.
pub open spec fn bounded_limit(pagination: Pagination) -> int {
    match pagination.limit {
        None => 50,
        Some(n) => if n < 1 {
            1
        } else if n > 1000 {
            1000
        } else {
            n as int
        },
    }
}

/// The number of rows that come before those that are read for a request.
pub open spec fn bounded_offset(pagination: Pagination) -> int {
    match pagination.offset {
        None => 0,
        Some(n) => if n < 0 {
            0
        } else {
            n as int
        },
    }
}

/// A page is read after a look whether the table is there, with the bounded numbers of the request,
/// and the table is counted after that. The answer holds the rows that were read and these very
/// numbers.
#[verifier::rlimit(40)]
pub proof fn law_page(
    state: AppState,
    header: Option<Seq<u8>>,
    database: Seq<char>,
    table: Seq<char>,
    pagination: Pagination,
    replies: Replies,
)
    requires
        admitted(opt_text(state.settings().api_key), header),
        is_known(database),
        valid_identifier(table),
    ensures
        ({
            let limit = bounded_limit(pagination);
            let offset = bounded_offset(pagination);
            let look = reading(
                database,
                r#"
        SELECT 1 FROM information_schema.tables
        WHERE table_schema = 'public' AND table_name = $1 LIMIT 1
        "#@,
                seq![ParamView::Text(table)],
            );
            let page = paging(database, table, limit, offset);
            let count = counting(database, table);
            let answer = table_rows_answer(state, header, database, table, pagination, replies);
            let asked = table_rows_asked(state, header, database, table, pagination, replies);
            &&& replies(0, look) matches Err(error) ==> answer == Err::<JsonView, _>(error)
                && asked =~= seq![look]
            &&& replies(0, look) matches Ok(found) ==> (found.len() == 0 ==> (
            answer matches Err(error) && error.status is NotFound && asked =~= seq![look]))
            &&& replies(0, look) matches Ok(found) ==> (found.len() > 0 ==> match replies(1, page) {
                Err(error) => answer == Err::<JsonView, _>(error) && asked =~= seq![look, page],
                Ok(rows) => {
                    &&& asked =~= seq![look, page, count]
                    &&& answer matches Ok(document) && has_members(
                        document,
                        set!["database"@, "table"@, "rows"@, "pagination"@],
                    ) && member(document, "database"@) == text_json(database) && member(
                        document,
                        "table"@,
                    ) == text_json(table) && member(document, "rows"@) == Some(rows_json(rows)) && (
                    member(document, "pagination"@) matches Some(numbers) && has_members(
                        numbers,
                        set!["limit"@, "offset"@, "total"@],
                    ) && member(numbers, "limit"@) == int_json(limit) && member(
                        numbers,
                        "offset"@,
                    ) == int_json(offset) && member(numbers, "total"@) == int_json(
                        reported_count(replies(2, count), 0),
                    ))
                },
            })
        }),
{
    lemma_page_keys();
    let look = crate::query::text_query(database, crate::sql::TABLE_EXISTS@, table);
    let page = crate::page::page_query(
        database,
        table,
        crate::query::page_limit(pagination.limit),
        crate::query::page_offset(pagination.offset),
    );
    assert(page.params =~= paging(
        database,
        table,
        bounded_limit(pagination),
        bounded_offset(pagination),
    ).params);
    assert(page == paging(database, table, bounded_limit(pagination), bounded_offset(pagination)));
}

/// Requests for different pages of a table ask for different statements.
pub proof fn law_pages_differ(
    database: Seq<char>,
    table: Seq<char>,
    limits: (i64, i64),
    offsets: (i64, i64),
)
    requires
        limits.0 != limits.1 || offsets.0 != offsets.1,
    ensures
        crate::page::page_query(database, table, limits.0, offsets.0) != crate::page::page_query(
            database,
            table,
            limits.1,
            offsets.1,
        ),
{
    let a = crate::page::page_query(database, table, limits.0, offsets.0);
    let b = crate::page::page_query(database, table, limits.1, offsets.1);
    assert(a.params[0] == ParamView::I64(limits.0 as int));
    assert(b.params[0] == ParamView::I64(limits.1 as int));
    assert(a.params[1] == ParamView::I64(offsets.0 as int));
    assert(b.params[1] == ParamView::I64(offsets.1 as int));
}

proof fn lemma_row_keys()
    ensures
        "database"@ != "table"@,
        "database"@ != "primaryKey"@,
        "table"@ != "primaryKey"@,
        "database"@ != "row"@,
        "table"@ != "row"@,
        "primaryKey"@ != "row"@,
{
    reveal_strlit("database");
    reveal_strlit("table");
    reveal_strlit("primaryKey");
    reveal_strlit("row");
    assert("database"@.len() == 8);
    assert("table"@.len() == 5);
    assert("primaryKey"@.len() == 10);
    assert("row"@.len() == 3);
}

/// The statement that reads the row whose key column has the given value.
pub open spec fn row_reading(
    database: Seq<char>,
    table: Seq<char>,
    key: Seq<char>,
    record_id: Seq<char>,
) -> QueryView {
    reading(
        database,
        "SELECT * FROM "@ + (seq!['"'] + table + seq!['"']) + " WHERE "@ + (seq!['"'] + key
            + seq!['"']) + " = $1 LIMIT 1"@,
        seq![ParamView::Text(record_id)],
    )
}

/// The statement that asks a table for its primary key.
pub open spec fn key_reading(database: Seq<char>, table: Seq<char>) -> QueryView {
    reading(
        database,
        r#"
        SELECT kcu.column_name
        FROM information_schema.table_constraints tc
        JOIN information_schema.key_column_usage kcu
          ON tc.constraint_name = kcu.constraint_name
         AND tc.table_schema = kcu.table_schema
         AND tc.table_name = kcu.table_name
        WHERE tc.constraint_type = 'PRIMARY KEY'
          AND tc.table_schema = 'public'
          AND tc.table_name = $1
        ORDER BY kcu.ordinal_position
        LIMIT 1
        "#@,
        seq![ParamView::Text(table)],
    )
}

/// The statement that asks a table for one of its columns.
pub open spec fn column_reading(
    database: Seq<char>,
    table: Seq<char>,
    column: Seq<char>,
) -> QueryView {
    reading(
        database,
        r#"
            SELECT column_name FROM information_schema.columns
            WHERE table_schema = 'public' AND table_name = $1 AND column_name = $2 LIMIT 1
            "#@,
        Seq::empty().push(ParamView::Text(table)).push(ParamView::Text(column)),
    )
}

/// Whether a request for a row is answered as the statement that reads it by `key` says: with its
/// error, that there is no such row, or the first row.
pub open spec fn answers_row(
    answer: ResponseView,
    database: Seq<char>,
    table: Seq<char>,
    key: Seq<char>,
    record_id: Seq<char>,
    replies: Replies,
    n: nat,
) -> bool {
    match replies(n, row_reading(database, table, key, record_id)) {
        Err(error) => answer == Err::<JsonView, _>(error),
        Ok(rows) => if rows.len() == 0 {
            answer matches Err(error) && error.status is NotFound && error.detail == "Row with "@
                + key + "="@ + record_id + " not found"@
        } else {
            answer matches Ok(document) && has_members(
                document,
                set!["database"@, "table"@, "primaryKey"@, "row"@],
            ) && member(document, "database"@) == text_json(database) && member(document, "table"@)
                == text_json(table) && member(document, "primaryKey"@) == text_json(key) && member(
                document,
                "row"@,
            ) == Some(row_json(rows[0]))
        },
    }
}

/// A table is asked for its primary key first. Where it declares one, by the text in the column
/// `column_name` of the first row, the row is read by it.
#[verifier::rlimit(40)]
pub proof fn law_row_by_declared_key(
    state: AppState,
    header: Option<Seq<u8>>,
    database: Seq<char>,
    table: Seq<char>,
    record_id: Seq<char>,
    replies: Replies,
)
    requires
        admitted(opt_text(state.settings().api_key), header),
        is_known(database),
        valid_identifier(table),
    ensures
        ({
            let answer = row_by_id_answer(state, header, database, table, record_id, replies);
            let asked = row_by_id_asked(state, header, database, table, record_id, replies);
            let first = key_reading(database, table);
            &&& asked.len() > 0 && asked[0] == first
            &&& replies(0, first) matches Err(error) ==> answer == Err::<JsonView, _>(error)
                && asked =~= seq![first]
            &&& replies(0, first) matches Ok(rows) ==> (rows.len() > 0 && rows[0].contains_key(
                "column_name"@,
            ) ==> (rows[0]["column_name"@] matches DatumView::Text(key) ==> (valid_identifier(key)
                ==> answers_row(answer, database, table, key, record_id, replies, 1) && asked
                =~= seq![first, row_reading(database, table, key, record_id)])))
        }),
{
    lemma_row_keys();
}

/// Whether a table declares no primary key.
pub open spec fn declares_no_key(rows: Seq<RowView>) -> bool {
    rows.len() == 0 || !rows[0].contains_key("column_name"@) || !(rows[0]["column_name"@] is Text)
}

/// The columns that are tried, in their order.
pub proof fn law_candidates()
    ensures
        KEY_CANDIDATES@.len() == 6,
        KEY_CANDIDATES@[0]@ == "id"@,
        KEY_CANDIDATES@[1]@ == "ID"@,
        KEY_CANDIDATES@[2]@ == "uuid"@,
        KEY_CANDIDATES@[3]@ == "UUID"@,
        KEY_CANDIDATES@[4]@ == "pk"@,
        KEY_CANDIDATES@[5]@ == "rowid"@,
{
}

/// Where a table declares no key, the candidate columns are asked for one after the other. The first
/// that the table has is the key; an error ends the search; and where it has none of them that is
/// what is answered.
#[verifier::rlimit(40)]
pub proof fn law_row_by_candidates(
    state: AppState,
    header: Option<Seq<u8>>,
    database: Seq<char>,
    table: Seq<char>,
    record_id: Seq<char>,
    replies: Replies,
    i: int,
)
    requires
        admitted(opt_text(state.settings().api_key), header),
        is_known(database),
        valid_identifier(table),
        replies(0, key_reading(database, table)) matches Ok(rows) && declares_no_key(rows),
        0 <= i <= 6,
        forall|j: int|
            0 <= j < i ==> (replies(
                (1 + j) as nat,
                column_reading(database, table, #[trigger] KEY_CANDIDATES@[j]@),
            ) matches Ok(found) && found.len() == 0),
    ensures
        ({
            let answer = row_by_id_answer(state, header, database, table, record_id, replies);
            let asked = row_by_id_asked(state, header, database, table, record_id, replies);
            &&& asked.len() >= 1 + i
            &&& forall|j: int|
                0 <= j < i ==> asked[1 + j] == column_reading(
                    database,
                    table,
                    #[trigger] KEY_CANDIDATES@[j]@,
                )
            &&& i == 6 ==> (answer matches Err(error) && error.status is BadRequest && error.detail
                == "Cannot detect primary key for table '"@ + table + "'"@) && asked.len() == 7
            &&& i < 6 ==> asked.len() > 1 + i && asked[1 + i] == column_reading(
                database,
                table,
                KEY_CANDIDATES@[i]@,
            )
            &&& i < 6 ==> match replies(
                (1 + i) as nat,
                column_reading(database, table, KEY_CANDIDATES@[i]@),
            ) {
                Err(error) => answer == Err::<JsonView, _>(error) && asked.len() == 2 + i,
                Ok(found) => found.len() > 0 ==> answers_row(
                    answer,
                    database,
                    table,
                    KEY_CANDIDATES@[i]@,
                    record_id,
                    replies,
                    (2 + i) as nat,
                ) && asked.len() == 3 + i && asked[2 + i] == row_reading(
                    database,
                    table,
                    KEY_CANDIDATES@[i]@,
                    record_id,
                ),
            }
        }),
{
    lemma_row_keys();
    assert forall|j: int| 0 <= j < 6 implies crate::record::column_query(
        database,
        table,
        #[trigger] KEY_CANDIDATES@[j]@,
    ) == column_reading(database, table, KEY_CANDIDATES@[j]@) by {
        assert(crate::record::column_query(database, table, KEY_CANDIDATES@[j]@).params
            =~= column_reading(database, table, KEY_CANDIDATES@[j]@).params);
    }
    if i < 6 {
        crate::laws::law_candidates_valid(i);
    }
    lemma_candidates(database, table, record_id, replies, 0, i);
    let first = key_reading(database, table);
    let asked = row_by_id_asked(state, header, database, table, record_id, replies);
    let later = asked_by_candidates(database, table, record_id, 0, replies, 1);
    let rest = asked_by_candidates(database, table, record_id, i, replies, (1 + i) as nat);
    assert(asked =~= seq![first] + later);
    assert forall|j: int| 0 <= j < i implies asked[1 + j] == column_reading(
        database,
        table,
        #[trigger] KEY_CANDIDATES@[j]@,
    ) by {
        assert(later[j - 0] == asked[1 + j]);
    }
    assert forall|j: int| 0 <= j < rest.len() implies #[trigger] rest[j] == asked[1 + i + j] by {
        assert(later.skip(i)[j] == later[i + j]);
    }
    let answer = row_by_id_answer(state, header, database, table, record_id, replies);
    assert(answer == answer_by_candidates(
        database,
        table,
        record_id,
        i,
        replies,
        (1 + i) as nat,
    ));
    if i < 6 {
        let query = column_reading(database, table, KEY_CANDIDATES@[i]@);
        assert(rest[0] == query);
        match replies((1 + i) as nat, query) {
            Err(error) => {
                assert(rest =~= seq![query]);
            },
            Ok(found) => {
                if found.len() > 0 {
                    let read = row_reading(database, table, KEY_CANDIDATES@[i]@, record_id);
                    assert(rest =~= seq![query, read]);
                    assert(rest[1] == read);
                }
            },
        }
    }
}

/// The search goes on past the candidates that the table does not have.
proof fn lemma_candidates(
    database: Seq<char>,
    table: Seq<char>,
    record_id: Seq<char>,
    replies: Replies,
    k: int,
    i: int,
)
    requires
        0 <= k <= i <= 6,
        forall|j: int|
            0 <= j < 6 ==> crate::record::column_query(
                database,
                table,
                #[trigger] KEY_CANDIDATES@[j]@,
            ) == column_reading(database, table, KEY_CANDIDATES@[j]@),
        forall|j: int|
            0 <= j < i ==> (replies(
                (1 + j) as nat,
                column_reading(database, table, #[trigger] KEY_CANDIDATES@[j]@),
            ) matches Ok(found) && found.len() == 0),
    ensures
        answer_by_candidates(database, table, record_id, k, replies, (1 + k) as nat)
            == answer_by_candidates(database, table, record_id, i, replies, (1 + i) as nat),
        ({
            let asked = asked_by_candidates(database, table, record_id, k, replies, (1 + k) as nat);
            let rest = asked_by_candidates(database, table, record_id, i, replies, (1 + i) as nat);
            &&& asked.len() == (i - k) + rest.len()
            &&& forall|j: int|
                k <= j < i ==> asked[j - k] == column_reading(
                    database,
                    table,
                    #[trigger] KEY_CANDIDATES@[j]@,
                )
            &&& asked.skip(i - k) == rest
        }),
    decreases i - k,
{
    let asked = asked_by_candidates(database, table, record_id, k, replies, (1 + k) as nat);
    let rest = asked_by_candidates(database, table, record_id, i, replies, (1 + i) as nat);
    if k < i {
        let column = KEY_CANDIDATES@[k]@;
        assert(replies((1 + k) as nat, column_reading(database, table, column)) is Ok);
        lemma_candidates(database, table, record_id, replies, k + 1, i);
        let later = asked_by_candidates(
            database,
            table,
            record_id,
            k + 1,
            replies,
            (2 + k) as nat,
        );
        assert(asked =~= seq![column_reading(database, table, column)] + later);
        assert(asked.skip(i - k) =~= later.skip(i - k - 1));
        assert forall|j: int| k <= j < i implies asked[j - k] == column_reading(
            database,
            table,
            #[trigger] KEY_CANDIDATES@[j]@,
        ) by {
            if j > k {
                assert(asked[j - k] == later[j - (k + 1)]);
            }
        }
    } else {
        assert(asked.skip(0) =~= asked);
    }
}

proof fn lemma_created_keys()
    ensures
        "status"@ != "database"@,
        "status"@ != "table"@,
        "database"@ != "table"@,
        "status"@ != "columns"@,
        "database"@ != "columns"@,
        "table"@ != "columns"@,
{
    reveal_strlit("status");
    reveal_strlit("database");
    reveal_strlit("table");
    reveal_strlit("columns");
    assert("status"@.len() == 6);
    assert("database"@.len() == 8);
    assert("table"@.len() == 5);
    assert("columns"@.len() == 7);
}

/// The parts of a list stand in their order, with a comma and a space between each and the next.
pub proof fn law_comma_list(parts: Seq<Seq<char>>, last: Seq<char>)
    ensures
        comma_list(Seq::empty()) == Seq::<char>::empty(),
        comma_list(seq![last]) == last,
        parts.len() > 0 ==> comma_list(parts.push(last)) == comma_list(parts) + ", "@ + last,
{
    assert(parts.push(last).drop_last() =~= parts);
}

/// A row is inserted by one statement that writes: it names the table and the columns of the body,
/// has a place for the value of each, and takes the values in the same order.
#[verifier::rlimit(40)]
pub proof fn law_insert(
    state: AppState,
    header: Option<Seq<u8>>,
    database: Seq<char>,
    table: Seq<char>,
    fields: Seq<Pair>,
    replies: Replies,
)
    requires
        admitted(opt_text(state.settings().api_key), header),
        is_known(database),
        valid_identifier(table),
        fields.len() > 0,
        forall|i: int| 0 <= i < fields.len() ==> valid_identifier(#[trigger] fields[i].0),
    ensures
        ({
            let names = Seq::new(
                fields.len(),
                |i: int| (seq!['"'] + fields[i].0 + seq!['"']),
            );
            let places = Seq::new(fields.len(), |i: int| "$"@ + decimal((i + 1) as nat));
            let asked = insert_asked(state, header, database, table, fields);
            let answer = insert_answer(state, header, database, table, fields, replies);
            &&& asked.len() == 1
            &&& asked[0].write
            &&& asked[0].database == database
            &&& asked[0].sql == "INSERT INTO "@ + (seq!['"'] + table + seq!['"']) + " ("@
                + comma_list(names) + ") VALUES ("@ + comma_list(places) + ")"@
            &&& asked[0].params.len() == fields.len()
            &&& forall|i: int|
                0 <= i < fields.len() ==> bound_as(#[trigger] fields[i].1, asked[0].params[i])
            &&& replies(0, asked[0]) matches Err(error) ==> answer == Err::<JsonView, _>(error)
            &&& replies(0, asked[0]) is Ok ==> (answer matches Ok(document) && has_members(
                document,
                set!["status"@, "database"@, "table"@, "columns"@],
            ) && member(document, "status"@) == text_json("created"@) && member(
                document,
                "database"@,
            ) == text_json(database) && member(document, "table"@) == text_json(table) && (member(
                document,
                "columns"@,
            ) matches Some(JsonView::Array(columns)) && columns.len() == fields.len() && forall|
                i: int,
            |
                0 <= i < fields.len() ==> #[trigger] columns[i] == JsonView::Datum(
                    DatumView::Text(fields[i].0),
                )))
        }),
{
    lemma_created_keys();
    let names = Seq::new(fields.len(), |i: int| (seq!['"'] + fields[i].0 + seq!['"']));
    let places = Seq::new(fields.len(), |i: int| "$"@ + decimal((i + 1) as nat));
    assert(names =~= crate::sql::quoted_names(column_names(fields)));
    assert(places =~= placeholders(column_names(fields).len()));
}

/// Whether `param` carries the value: the same boolean, the same integer, the same characters.
pub open spec fn bound_as(value: DatumView, param: ParamView) -> bool {
    match value {
        DatumView::Null => param is Null,
        DatumView::Bool(b) => param matches ParamView::Bool(c) && c == b,
        DatumView::Int(n) => param matches ParamView::I64(m) && m == n,
        DatumView::Uint(n) => if n <= 9223372036854775807 {
            param matches ParamView::I64(m) && m == n
        } else {
            param matches ParamView::F64(t) && t == decimal(n as nat)
        },
        DatumView::Decimal(s) => param matches ParamView::F64(t) && t == s,
        DatumView::Text(s) => param matches ParamView::Text(t) && t == s,
        DatumView::Document(s) => param matches ParamView::Json(t) && t == s,
    }
}

/// A request to insert nothing, and one with a column whose name may not stand as an identifier, are
/// refused and ask for no statement.
pub proof fn law_insert_refused(
    state: AppState,
    header: Option<Seq<u8>>,
    database: Seq<char>,
    table: Seq<char>,
    fields: Seq<Pair>,
    replies: Replies,
)
    requires
        admitted(opt_text(state.settings().api_key), header),
        is_known(database),
        valid_identifier(table),
    ensures
        fields.len() == 0 ==> (insert_answer(
            state,
            header,
            database,
            table,
            fields,
            replies,
        ) matches Err(error) && error.status is BadRequest && error.detail
            == "Request body must contain 'data' object"@) && insert_asked(
            state,
            header,
            database,
            table,
            fields,
        ).len() == 0,
        (exists|i: int| 0 <= i < fields.len() && !valid_identifier(#[trigger] fields[i].0)) ==> (
        insert_answer(state, header, database, table, fields, replies) matches Err(error)
            && error.status is BadRequest && error.detail == "Invalid "@ + "column"@ + " name"@)
            && insert_asked(state, header, database, table, fields).len() == 0,
{
}

} // verus!
