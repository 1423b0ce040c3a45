use std::sync::Arc;

use db_proxy::auth::authorize;
use db_proxy::config::Environment;
use db_proxy::databases::list_databases;
use db_proxy::error::Status;
use db_proxy::flow::{Flow, Response, Step};
use db_proxy::health::health_check;
use db_proxy::insert::{insert_row, InsertRowRequest};
use db_proxy::json::{Datum, Json, Row};
use db_proxy::page::get_table_rows;
use db_proxy::query::{OwnedParam, Pagination, Query, Reply};
use db_proxy::record::get_row_by_id;
use db_proxy::tables::list_tables;
use db_proxy::{ApiError, AppState, Config, DATABASES};
use serde_json::Value;

fn state(key: Option<&str>) -> AppState {
    AppState::new(Arc::new(Config::from_env(Environment {
        port: None,
        api_key: key.map(|k| k.to_string()),
        cockroach_host: None,
        cockroach_port: None,
        cockroach_user: None,
        cockroach_password: None,
        cockroach_ssl: None,
    })))
}

/// Runs a request with `answer` for the databases, and hands back its statements too.
fn run<F: Flow>(
    start: Step<F, F::Outcome>,
    mut answer: impl FnMut(&Query) -> Reply,
) -> (F::Outcome, Vec<Query>) {
    let mut asked = Vec::new();
    let mut step = start;
    loop {
        match step {
            Step::Ask { query, next } => {
                let reply = answer(&query);
                asked.push(query);
                step = next.resume(reply);
            }
            Step::Done { result } => return (result, asked),
        }
    }
}

fn value(json: &Json) -> Value {
    match json {
        Json::Datum(Datum::Null) => Value::Null,
        Json::Datum(Datum::Bool(b)) => Value::from(*b),
        Json::Datum(Datum::Int(n)) => Value::from(*n),
        Json::Datum(Datum::Uint(n)) => Value::from(*n),
        Json::Datum(Datum::Text(t)) => Value::from(t.as_str()),
        Json::Datum(Datum::Decimal(t)) => serde_json::from_str(t).unwrap(),
        Json::Datum(Datum::Document(t)) => serde_json::from_str(t).unwrap(),
        Json::Array(array) => Value::Array(array.items.iter().map(value).collect()),
        Json::Object(object) => {
            let mut map = serde_json::Map::new();
            for member in &object.members {
                map.insert(member.key.clone(), value(&member.value));
            }
            Value::Object(map)
        }
    }
}

fn parsed(text: &str) -> Value {
    serde_json::from_str(text).unwrap()
}

fn body(response: Response) -> Value {
    value(&response.unwrap())
}

fn row(fields: &[(&str, Datum)]) -> Row {
    let mut row = Row::new();
    for (name, datum) in fields {
        row.put(name, datum.copy());
    }
    row
}

fn text(s: &str) -> Datum {
    Datum::Text(s.to_string())
}

fn named(name: &str) -> Row {
    row(&[("table_name", text(name))])
}

fn down() -> Reply {
    Err(ApiError::service_unavailable("down"))
}

fn params(query: &Query) -> String {
    format!("{:?}", query.params)
}

#[test]
fn requests_are_admitted_by_their_key() {
    let open = state(None);
    assert!(authorize(None, &open).is_ok());
    assert!(authorize(Some(b"anything"), &open).is_ok());
    let closed = state(Some(" SECRET \n"));
    assert!(authorize(Some(b"SECRET"), &closed).is_ok());
    for header in [None, Some(&b""[..]), Some(&b"SECRE"[..]), Some(&b"SECRETS"[..]), Some(&b"secret"[..])] {
        let error = authorize(header, &closed).unwrap_err();
        assert_eq!(error.status, Status::Unauthorized);
        assert_eq!(error.detail, "Invalid or missing API key");
    }
    assert!(authorize(Some(b"SECRET\x01"), &closed).is_err());
    assert!(authorize(Some("SECR\u{c9}T".as_bytes()), &state(Some("SECR\u{c9}T"))).is_err());
    assert!(authorize(Some(b"a\tb"), &state(Some("a\tb"))).is_ok());
}

#[test]
fn refused_requests_ask_for_no_statement() {
    let state = state(Some("k"));
    let page = Pagination { limit: None, offset: None };
    let data = InsertRowRequest { data: serde_json::Map::new() };
    let answers = [
        run(list_databases(None, &state), |_| unreachable!()).0,
        run(list_tables(None, &state, "battery_erp"), |_| unreachable!()).0,
        run(get_table_rows(None, &state, "battery_erp", "t", page), |_| unreachable!()).0,
        run(get_row_by_id(None, &state, "battery_erp", "t", "1"), |_| unreachable!()).0,
        run(insert_row(None, &state, "battery_erp", "t", &data), |_| unreachable!()).0,
    ];
    for answer in answers {
        assert_eq!(answer.unwrap_err().status, Status::Unauthorized);
    }
}

#[test]
fn unknown_databases_and_invalid_tables_ask_for_no_statement() {
    let state = state(None);
    let page = || Pagination { limit: None, offset: None };
    let mut data = serde_json::Map::new();
    data.insert("a".to_string(), Value::Null);
    let data = InsertRowRequest { data };
    let unknown = [
        run(list_tables(None, &state, "db"), |_| unreachable!()).0,
        run(get_table_rows(None, &state, "db", "t", page()), |_| unreachable!()).0,
        run(get_row_by_id(None, &state, "db", "t", "1"), |_| unreachable!()).0,
        run(insert_row(None, &state, "db", "t", &data), |_| unreachable!()).0,
    ];
    for answer in unknown {
        let error = answer.unwrap_err();
        assert_eq!((error.status, error.detail.as_str()), (Status::NotFound, "Unknown database: db"));
    }
    let invalid = [
        run(get_table_rows(None, &state, "battery_erp", "t;", page()), |_| unreachable!()).0,
        run(get_row_by_id(None, &state, "battery_erp", "t;", "1"), |_| unreachable!()).0,
        run(insert_row(None, &state, "battery_erp", "t;", &data), |_| unreachable!()).0,
    ];
    for answer in invalid {
        let error = answer.unwrap_err();
        assert_eq!((error.status, error.detail.as_str()), (Status::BadRequest, "Invalid table name"));
    }
}

#[test]
fn health_is_healthy_when_all_databases_answer() {
    let (report, asked) = run(health_check(), |_| Ok(vec![]));
    assert_eq!(asked.len(), 10);
    for (i, query) in asked.iter().enumerate() {
        assert_eq!(query.database, DATABASES[i]);
        assert_eq!(query.sql, "SELECT 1 AS ok");
        assert!(!query.write);
    }
    let report = value(&report);
    assert_eq!(report["status"], "healthy");
    assert_eq!(report["databases"].as_object().unwrap().len(), 10);
    for database in DATABASES {
        assert_eq!(report["databases"][database], "ok");
    }
}

#[test]
fn health_is_degraded_when_one_database_does_not_answer() {
    let secret = "password authentication failed";
    let (report, _) = run(health_check(), |query| {
        if query.database == "stratifi_core" {
            Err(ApiError::internal(secret))
        } else {
            Ok(vec![])
        }
    });
    let report = value(&report);
    assert_eq!(report["status"], "degraded");
    assert_eq!(report["databases"]["stratifi_core"], "degraded");
    assert_eq!(report["databases"]["battery_erp"], "ok");
    assert!(!report.to_string().contains(secret));
}

#[test]
fn databases_are_listed_with_their_tables() {
    let long = "x".repeat(300);
    let (response, asked) = run(list_databases(None, &state(None)), |query| {
        match query.database.as_str() {
            "closed_loop_finance" => {
                if query.sql.starts_with("SELECT count(*)") {
                    if query.sql.contains("budgets") {
                        Ok(vec![row(&[("cnt", Datum::Int(7))])])
                    } else {
                        down()
                    }
                } else {
                    let mut budgets = named("budgets");
                    budgets.put("column_count", Datum::Int(4));
                    Ok(vec![budgets, named("odd-name"), named("lost")])
                }
            }
            "sec_earnings_workbench" => Ok(vec![]),
            _ => Err(ApiError::internal(long.as_str())),
        }
    });
    assert_eq!(asked.len(), 12);
    let document = body(response);
    assert_eq!(document["total"], 10);
    let list = document["databases"].as_array().unwrap();
    for (i, entry) in list.iter().enumerate() {
        assert_eq!(entry["database"], DATABASES[i]);
    }
    assert_eq!(
        list[0],
        parsed(
            r#"{"database":"closed_loop_finance","totalTables":3,"tables":[
                {"name":"budgets","columns":4,"rows":7},
                {"name":"odd-name","columns":null,"rows":-1},
                {"name":"lost","columns":null,"rows":-1}]}"#
        )
    );
    assert_eq!(
        list[1],
        parsed(r#"{"database":"sec_earnings_workbench","totalTables":0,"tables":[]}"#)
    );
    assert_eq!(list[2]["error"].as_str().unwrap(), &"x".repeat(200));
    assert_eq!(list[2]["tables"], parsed("[]"));
    assert_eq!(list[2]["totalTables"], 0);
    assert_eq!(asked[1].sql, "SELECT count(*) AS cnt FROM \"budgets\"");
}

#[test]
fn tables_are_listed_with_their_columns() {
    let (response, asked) = run(list_tables(None, &state(None), "battery_erp"), |query| {
        if query.sql.contains("information_schema.columns") {
            Ok(vec![row(&[("column_name", text("id"))])])
        } else if query.sql.starts_with("SELECT count(*)") {
            Ok(vec![row(&[("cnt", text("12"))])])
        } else {
            Ok(vec![named("cells"), named("no table")])
        }
    });
    assert_eq!(
        body(response),
        parsed(
            r#"{"database":"battery_erp","tables":[
                {"name":"cells","columns":[{"column_name":"id"}],"rows":12},
                {"name":"no table","columns":[{"column_name":"id"}],"rows":-1}]}"#
        )
    );
    assert_eq!(asked.len(), 4);
    assert_eq!(params(&asked[1]), "[Text(\"cells\")]");
    assert_eq!(params(&asked[3]), "[Text(\"no table\")]");
    let (failed, _) = run(list_tables(None, &state(None), "battery_erp"), |query| {
        if query.params.is_empty() {
            Ok(vec![named("cells")])
        } else {
            down()
        }
    });
    assert_eq!(failed.unwrap_err().detail, "down");
}

#[test]
fn a_table_whose_columns_cannot_be_listed_is_the_last_that_is_asked_for() {
    let (response, asked) = run(list_tables(None, &state(None), "battery_erp"), |query| {
        if query.params.is_empty() && query.sql.contains("information_schema") {
            Ok(vec![named("a"), named("b-c"), named("d"), named("e")])
        } else if params(query).contains("\"d\"") {
            Err(ApiError::internal("first"))
        } else if params(query).contains("\"e\"") {
            Err(ApiError::internal("second"))
        } else {
            Ok(vec![])
        }
    });
    assert_eq!(response.unwrap_err().detail, "first");
    let statements: Vec<String> = asked[1..].iter().map(params).collect();
    assert_eq!(statements, ["[Text(\"a\")]", "[]", "[Text(\"b-c\")]", "[Text(\"d\")]"]);
    assert_eq!(asked[2].sql, "SELECT count(*) AS cnt FROM \"a\"");
}

#[test]
fn pages_are_read_from_tables_that_are_there() {
    let page = Pagination { limit: Some(5000), offset: Some(-1) };
    let start = get_table_rows(None, &state(None), "battery_erp", "cells", page);
    let mut number = 0;
    let (response, asked) = run(start, |_| {
        number += 1;
        match number {
            1 => Ok(vec![Row::new()]),
            2 => Ok(vec![row(&[("id", Datum::Int(1)), ("v", Datum::Decimal("0.5".to_string()))])]),
            _ => Ok(vec![row(&[("cnt", Datum::Int(88))])]),
        }
    });
    assert_eq!(
        body(response),
        parsed(
            r#"{"database":"battery_erp","table":"cells","rows":[{"id":1,"v":0.5}],
                "pagination":{"limit":1000,"offset":0,"total":88}}"#
        )
    );
    assert_eq!(asked.len(), 3);
    assert_eq!(params(&asked[0]), "[Text(\"cells\")]");
    assert_eq!(asked[1].sql, "SELECT * FROM \"cells\" ORDER BY rowid LIMIT $1 OFFSET $2");
    assert_eq!(params(&asked[1]), "[I64(1000), I64(0)]");
    assert_eq!(asked[2].sql, "SELECT count(*) AS cnt FROM \"cells\"");
}

#[test]
fn pages_of_missing_tables_are_not_found() {
    let page = || Pagination { limit: None, offset: None };
    let start = get_table_rows(None, &state(None), "battery_erp", "cells", page());
    let (response, asked) = run(start, |_| Ok(vec![]));
    let error = response.unwrap_err();
    assert_eq!(error.status, Status::NotFound);
    assert_eq!(error.detail, "Table 'cells' not found in 'battery_erp'");
    assert_eq!(asked.len(), 1);
    let start = get_table_rows(None, &state(None), "battery_erp", "cells", page());
    let mut number = 0;
    let (response, _) = run(start, |_| {
        number += 1;
        if number < 3 { Ok(vec![Row::new()]) } else { down() }
    });
    assert_eq!(body(response)["pagination"], parsed(r#"{"limit":50,"offset":0,"total":0}"#));
}

#[test]
fn rows_are_found_by_the_declared_key() {
    let start = get_row_by_id(None, &state(None), "battery_erp", "cells", "7");
    let (response, asked) = run(start, |query| {
        if query.sql.contains("PRIMARY KEY") {
            Ok(vec![row(&[("column_name", text("cell_id"))])])
        } else {
            Ok(vec![row(&[("cell_id", text("7"))])])
        }
    });
    assert_eq!(
        body(response),
        parsed(
            r#"{"database":"battery_erp","table":"cells","primaryKey":"cell_id",
                "row":{"cell_id":"7"}}"#
        )
    );
    assert_eq!(asked[1].sql, "SELECT * FROM \"cells\" WHERE \"cell_id\" = $1 LIMIT 1");
    assert_eq!(params(&asked[1]), "[Text(\"7\")]");
}

#[test]
fn keys_that_are_no_identifiers_reach_no_statement() {
    for key in ["a\"b", "order id", "id;", ""] {
        let start = get_row_by_id(None, &state(None), "battery_erp", "cells", "7");
        let (response, asked) = run(start, |_| Ok(vec![row(&[("column_name", text(key))])]));
        let error = response.unwrap_err();
        assert_eq!(error.status, Status::BadRequest);
        assert_eq!(error.detail, "Invalid column name");
        assert_eq!(asked.len(), 1);
        assert!(asked[0].sql.contains("PRIMARY KEY"));
    }
}

#[test]
fn rows_are_found_by_the_first_candidate_key() {
    let start = get_row_by_id(None, &state(None), "battery_erp", "cells", "7");
    let (response, asked) = run(start, |query| {
        if query.params.len() == 2 && params(query).contains("uuid") {
            Ok(vec![Row::new()])
        } else {
            Ok(vec![])
        }
    });
    let error = response.unwrap_err();
    assert_eq!(error.status, Status::NotFound);
    assert_eq!(error.detail, "Row with uuid=7 not found");
    assert_eq!(asked.len(), 5);
    assert_eq!(params(&asked[1]), "[Text(\"cells\"), Text(\"id\")]");
    assert_eq!(params(&asked[2]), "[Text(\"cells\"), Text(\"ID\")]");
    assert_eq!(params(&asked[3]), "[Text(\"cells\"), Text(\"uuid\")]");
}

#[test]
fn rows_of_tables_without_a_key_are_not_found() {
    let start = get_row_by_id(None, &state(None), "battery_erp", "cells", "7");
    let (response, asked) = run(start, |_| Ok(vec![]));
    let error = response.unwrap_err();
    assert_eq!(error.status, Status::BadRequest);
    assert_eq!(error.detail, "Cannot detect primary key for table 'cells'");
    assert_eq!(asked.len(), 7);
    let start = get_row_by_id(None, &state(None), "battery_erp", "cells", "7");
    assert_eq!(run(start, |_| down()).0.unwrap_err().detail, "down");
}

#[test]
fn rows_are_inserted_by_ascending_columns() {
    let data = serde_json::from_str(
        r#"{"b":[1,{"x":null}],"a":1.5,"Z":true,"c":null,"d":"t","e":-4,"f":18446744073709551615}"#,
    )
    .unwrap();
    let request = InsertRowRequest { data };
    let start = insert_row(None, &state(None), "battery_erp", "cells", &request);
    let (response, asked) = run(start, |_| Ok(vec![]));
    assert_eq!(asked.len(), 1);
    assert!(asked[0].write);
    assert_eq!(
        asked[0].sql,
        "INSERT INTO \"cells\" (\"Z\", \"a\", \"b\", \"c\", \"d\", \"e\", \"f\") \
         VALUES ($1, $2, $3, $4, $5, $6, $7)"
    );
    match asked[0].params.as_slice() {
        [OwnedParam::Bool(true), OwnedParam::F64(a), OwnedParam::Json(b), OwnedParam::Null, OwnedParam::Text(d), OwnedParam::I64(-4), OwnedParam::F64(f)] =>
        {
            assert_eq!(a, "1.5");
            assert_eq!(b, "[1,{\"x\":null}]");
            assert_eq!(d, "t");
            assert_eq!(f, "18446744073709551615");
        }
        other => panic!("{:?}", other),
    }
    assert_eq!(
        body(response),
        parsed(
            r#"{"status":"created","database":"battery_erp","table":"cells",
                "columns":["Z","a","b","c","d","e","f"]}"#
        )
    );
}

#[test]
fn insertions_that_cannot_be_made_are_refused() {
    let empty = InsertRowRequest { data: serde_json::Map::new() };
    let start = insert_row(None, &state(None), "battery_erp", "cells", &empty);
    let error = run(start, |_| unreachable!()).0.unwrap_err();
    assert_eq!(error.status, Status::BadRequest);
    assert_eq!(error.detail, "Request body must contain 'data' object");
    let odd = InsertRowRequest { data: serde_json::from_str(r#"{"a":1,"b c":2}"#).unwrap() };
    let start = insert_row(None, &state(None), "battery_erp", "cells", &odd);
    let error = run(start, |_| unreachable!()).0.unwrap_err();
    assert_eq!(error.status, Status::BadRequest);
    assert_eq!(error.detail, "Invalid column name");
    let one = InsertRowRequest { data: serde_json::from_str(r#"{"a":1}"#).unwrap() };
    let start = insert_row(None, &state(None), "battery_erp", "cells", &one);
    assert_eq!(run(start, |_| down()).0.unwrap_err().detail, "down");
}
