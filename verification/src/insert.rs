//! Inserting a row.

use vstd::prelude::*;

use crate::auth::authorize;
#[allow(unused_imports)]
use crate::auth::{admitted, not_admitted, opt_bytes};
use crate::config::AppState;
#[allow(unused_imports)]
use crate::config::opt_text;
use crate::entries::{list_entries, Pair};
#[allow(unused_imports)]
use crate::entries::{entries, lemma_listed, listed, lists, pairs};
use crate::error::{ApiError, ApiErrorView};
#[allow(unused_imports)]
use crate::error::Status;
use crate::flow::{Flow, Replies, Response, ResponseView, Step};
#[allow(unused_imports)]
use crate::flow::{response_view, step_asked, step_outcome, step_wf};
use crate::identifiers::{ensure_database, ensure_identifier};
#[allow(unused_imports)]
use crate::identifiers::{invalid_name, is_known, unknown_database, valid_identifier};
use crate::json::{Array, Field, Json, JsonView, Object, Row};
use crate::query::{value_to_param, OwnedParam, Query, QueryView, Reply};
#[allow(unused_imports)]
use crate::query::param_of;
use crate::sql::insert_text;
#[allow(unused_imports)]
use crate::sql::{insert_sql, is_insert, name_texts, permitted};

verus! {

/// The body of a request to insert a row: the columns with their values.
#[derive(Debug)]
pub struct InsertRowRequest {
    pub data: serde_json::Map<String, serde_json::Value>,
}

/// The names of `fields`.
pub open spec fn column_names(fields: Seq<Pair>) -> Seq<Seq<char>> {
    Seq::new(fields.len(), |i: int| fields[i].0)
}

/// The statement that inserts `fields` into `table`.
pub open spec fn insert_query(
    database: Seq<char>,
    table: Seq<char>,
    fields: Seq<Pair>,
) -> QueryView {
    QueryView {
        database,
        sql: insert_sql(table, column_names(fields)),
        params: Seq::new(fields.len(), |i: int| param_of(fields[i].1)),
        write: true,
    }
}

/// Whether `fields` can be inserted: there are some, and all their names may stand as identifiers.
pub open spec fn insertable(fields: Seq<Pair>) -> bool {
    fields.len() > 0 && forall|i: int|
        0 <= i < fields.len() ==> valid_identifier(#[trigger] fields[i].0)
}

/// What is answered where there is nothing to insert.
pub open spec fn no_data() -> ApiErrorView {
    ApiErrorView {
        status: Status::BadRequest,
        detail: "Request body must contain 'data' object"@,
    }
}

/// The names of columns, as a JSON array.
pub open spec fn names_json(names: Seq<Seq<char>>) -> JsonView {
    JsonView::Array(Seq::new(names.len(), |i: int| JsonView::text(names[i])))
}

/// The row is inserted.
pub open spec fn created_report(
    database: Seq<char>,
    table: Seq<char>,
    names: Seq<Seq<char>>,
) -> JsonView {
    JsonView::Object(
        map![
            "status"@ => JsonView::text("created"@),
            "database"@ => JsonView::text(database),
            "table"@ => JsonView::text(table),
            "columns"@ => names_json(names),
        ],
    )
}

/// The answer to a request to insert `fields` into `table`.
pub open spec fn insert_answer(
    state: AppState,
    header: Option<Seq<u8>>,
    database: Seq<char>,
    table: Seq<char>,
    fields: Seq<Pair>,
    replies: Replies,
) -> ResponseView {
    if !admitted(opt_text(state.settings().api_key), header) {
        Err(not_admitted())
    } else if !is_known(database) {
        Err(unknown_database(database))
    } else if !valid_identifier(table) {
        Err(invalid_name("table"@))
    } else if fields.len() == 0 {
        Err(no_data())
    } else if exists|i: int| 0 <= i < fields.len() && !valid_identifier(#[trigger] fields[i].0) {
        Err(invalid_name("column"@))
    } else {
        match replies(0, insert_query(database, table, fields)) {
            Err(error) => Err(error),
            Ok(_) => Ok(created_report(database, table, column_names(fields))),
        }
    }
}

/// The statements of a request to insert `fields` into `table`: one, or none where the request is
/// refused.
pub open spec fn insert_asked(
    state: AppState,
    header: Option<Seq<u8>>,
    database: Seq<char>,
    table: Seq<char>,
    fields: Seq<Pair>,
) -> Seq<QueryView> {
    if admitted(opt_text(state.settings().api_key), header) && is_known(database)
        && valid_identifier(table) && insertable(fields) {
        seq![insert_query(database, table, fields)]
    } else {
        Seq::empty()
    }
}

/// A request to insert a row that waits for its statement.
pub struct InsertRow {
    database: String,
    table: String,
    columns: Vec<String>,
    statement: Ghost<QueryView>,
}

/// Starts a request to insert a row into `table`. The columns are those of the body, each once, by
/// ascending names.
pub fn insert_row(
    header: Option<&[u8]>,
    state: &AppState,
    database: &str,
    table: &str,
    body: &InsertRowRequest,
) -> (step: Step<InsertRow, Response>)
    ensures
        step_wf(step),
        step is Ask == (admitted(opt_text(state.settings().api_key), opt_bytes(header))
            && is_known(database@) && valid_identifier(table@) && insertable(listed(entries(body.data)))),
        forall|replies: Replies| #[trigger]
            step_outcome(step, replies, 0) == insert_answer(
                *state,
                opt_bytes(header),
                database@,
                table@,
                listed(entries(body.data)),
                replies,
            ),
        forall|replies: Replies| #[trigger]
            step_asked(step, replies, 0) =~= insert_asked(
                *state,
                opt_bytes(header),
                database@,
                table@,
                listed(entries(body.data)),
            ),
        lists(listed(entries(body.data)), entries(body.data)),
{
    let row = list_entries(&body.data);
    proof {
        lemma_listed(row.fields@);
    }
    insert_fields(header, state, database, table, row)
}

/// Starts a request to insert the fields of `row`, in their order, into `table`.
pub fn insert_fields(
    header: Option<&[u8]>,
    state: &AppState,
    database: &str,
    table: &str,
    row: Row,
) -> (step: Step<InsertRow, Response>)
    ensures
        step_wf(step),
        step is Ask == (admitted(opt_text(state.settings().api_key), opt_bytes(header))
            && is_known(database@) && valid_identifier(table@) && insertable(pairs(row.fields@))),
        forall|replies: Replies| #[trigger]
            step_outcome(step, replies, 0) == insert_answer(
                *state,
                opt_bytes(header),
                database@,
                table@,
                pairs(row.fields@),
                replies,
            ),
        forall|replies: Replies| #[trigger]
            step_asked(step, replies, 0) =~= insert_asked(
                *state,
                opt_bytes(header),
                database@,
                table@,
                pairs(row.fields@),
            ),
{
    if let Err(error) = authorize(header, state) {
        return Step::Done { result: Err(error) };
    }
    if let Err(error) = ensure_database(database) {
        return Step::Done { result: Err(error) };
    }
    if let Err(error) = ensure_identifier("table", table) {
        return Step::Done { result: Err(error) };
    }
    if row.fields.len() == 0 {
        let error = ApiError::bad_request("Request body must contain 'data' object");
        return Step::Done { result: Err(error) };
    }
    let ghost fields = pairs(row.fields@);
    let mut columns: Vec<String> = Vec::new();
    let mut params: Vec<OwnedParam> = Vec::new();
    for i in 0..row.fields.len()
        invariant
            fields == pairs(row.fields@),
            columns@.len() == i,
            params@.len() == i,
            forall|k: int| 0 <= k < i ==> #[trigger] columns@[k]@ == fields[k].0,
            forall|k: int| 0 <= k < i ==> #[trigger] params@[k]@ == param_of(fields[k].1),
            forall|k: int| 0 <= k < i ==> valid_identifier(#[trigger] fields[k].0),
            admitted(opt_text(state.settings().api_key), opt_bytes(header)),
            is_known(database@),
            valid_identifier(table@),
            row.fields@.len() > 0,
    {
        let field: &Field = &row.fields[i];
        assert(fields[i as int].0 == field.name@);
        if let Err(error) = ensure_identifier("column", field.name.as_str()) {
            return Step::Done { result: Err(error) };
        }
        columns.push(field.name.clone());
        params.push(value_to_param(field.value.copy()));
    }
    let sql = insert_text(table, &columns);
    let query = Query { database: database.to_string(), sql, params, write: true };
    assert(name_texts(columns@) =~= column_names(fields));
    assert(query@.params =~= insert_query(database@, table@, fields).params);
    assert(is_insert(query@, table@, column_names(fields)));
    let next = InsertRow {
        database: database.to_string(),
        table: table.to_string(),
        columns,
        statement: Ghost(query@),
    };
    Step::Ask { query, next }
}

impl Flow for InsertRow {
    type Outcome = Response;

    type OutcomeView = ResponseView;

    open spec fn outcome_view(outcome: Response) -> ResponseView {
        response_view(outcome)
    }

    closed spec fn wf(&self) -> bool {
        permitted(self.statement@) && self.statement@.write
    }

    closed spec fn pending(&self) -> QueryView {
        self.statement@
    }

    open spec fn parts(&self) -> nat {
        1
    }

    open spec fn left(&self) -> nat {
        1
    }

    closed spec fn outcome(&self, replies: Replies, n: nat) -> ResponseView {
        match replies(n, self.statement@) {
            Err(error) => Err(error),
            Ok(_) => Ok(created_report(self.database@, self.table@, name_texts(self.columns@))),
        }
    }

    closed spec fn asked(&self, replies: Replies, n: nat) -> Seq<QueryView> {
        seq![self.statement@]
    }

    open spec fn writes() -> bool {
        true
    }

    proof fn pending_permitted(&self) {
    }

    fn resume(self, reply: Reply) -> (step: Step<InsertRow, Response>) {
        if let Err(error) = reply {
            return Step::Done { result: Err(error) };
        }
        let mut names = Array::new();
        for i in 0..self.columns.len()
            invariant
                names@ == Seq::new(i as nat, |k: int| JsonView::text(self.columns@[k]@)),
        {
            names.push(Json::text(self.columns[i].as_str()));
            assert(names@ =~= Seq::new((i + 1) as nat, |k: int| JsonView::text(self.columns@[k]@)));
        }
        assert(names@ =~= names_json(name_texts(self.columns@))->Array_0);
        let mut object = Object::new();
        object.put("status", Json::text("created"));
        object.put("database", Json::text(self.database.as_str()));
        object.put("table", Json::text(self.table.as_str()));
        object.put("columns", Json::Array(names));
        Step::Done { result: Ok(Json::Object(object)) }
    }
}

} // verus!
