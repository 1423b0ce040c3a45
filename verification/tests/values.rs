use std::sync::Arc;

use db_proxy::calendar::{instant_text, Date, Time};
use db_proxy::cells::{
    cell_to_json, decoder, row_to_json, unsupported_value, Cell, Column, Decoded, Decoder, BOOL,
    BPCHAR, BYTEA, DATE, FLOAT4, FLOAT8, INT2, INT4, INT8, JSON, JSONB, NAME, TEXT, TIME,
    TIMESTAMP, TIMESTAMPTZ, UUID, VARCHAR,
};
use db_proxy::config::{non_empty_env, Environment, DEFAULT_HOST};
use db_proxy::connection::{
    connect_database, connect_error, connect_timeout, query_error, query_timeout, to_sql_error,
    ResilienceError, CONNECT_TIMEOUT_SECS, QUERY_TIMEOUT_SECS,
};
use db_proxy::error::Status;
use db_proxy::json::{Array, Datum, Json, Object, Row};
use db_proxy::lookup::{
    json_value_to_i64, json_value_to_number_text, pick_amount, pick_i64, pick_string,
    pick_string_or,
};
use db_proxy::numbers::Real;
use db_proxy::query::{value_to_param, OwnedParam, Pagination, Query};
use db_proxy::ranking::rank_falling;
use db_proxy::statement::{plan_statement, run_query, run_write};
use db_proxy::text::{comes_before, contains_text, decimal_text, first_chars, lower_text, signed_text};
use db_proxy::{ApiError, AppState, Config};
use tokio_postgres::types::Type;

fn text(value: &str) -> Datum {
    Datum::Text(value.to_string())
}

fn shown(datum: &Datum) -> String {
    format!("{:?}", datum)
}

fn float(x: f64) -> Real {
    Real { bits: x.to_bits(), text: serde_json::to_string(&x).unwrap() }
}

fn unset() -> Environment {
    Environment {
        port: None,
        api_key: None,
        cockroach_host: None,
        cockroach_port: None,
        cockroach_user: None,
        cockroach_password: None,
        cockroach_ssl: None,
    }
}

fn some(value: &str) -> Option<String> {
    Some(value.to_string())
}

#[test]
fn pagination_is_clamped() {
    let pagination = Pagination { limit: Some(5000), offset: Some(-20) };
    assert_eq!(pagination.normalized(), (1000, 0));
}

#[test]
fn pagination_keeps_what_is_in_bounds() {
    assert_eq!(Pagination { limit: None, offset: None }.normalized(), (50, 0));
    assert_eq!(Pagination { limit: Some(1), offset: Some(7) }.normalized(), (1, 7));
    assert_eq!(Pagination { limit: Some(1000), offset: Some(0) }.normalized(), (1000, 0));
    assert_eq!(Pagination { limit: Some(0), offset: None }.normalized(), (1, 0));
    let extreme = Pagination { limit: Some(i64::MIN), offset: Some(i64::MAX) };
    assert_eq!(extreme.normalized(), (1, i64::MAX));
    let (limit, offset) = extreme.normalized();
    let again = Pagination { limit: Some(limit), offset: Some(offset) };
    assert_eq!(again.normalized(), (limit, offset));
}

#[test]
fn numeric_strings_are_readable() {
    assert_eq!(json_value_to_i64(&text("42")), Some(42));
    let number = json_value_to_number_text(&text("12.5")).unwrap();
    assert_eq!(number.parse().ok(), Some(12.5));
}

#[test]
fn integers_are_read_from_numbers_and_texts() {
    assert_eq!(json_value_to_i64(&Datum::Int(-7)), Some(-7));
    assert_eq!(json_value_to_i64(&Datum::Uint(9223372036854775807)), Some(i64::MAX));
    assert_eq!(json_value_to_i64(&Datum::Uint(9223372036854775808)), None);
    assert_eq!(json_value_to_i64(&text("-9223372036854775808")), Some(i64::MIN));
    assert_eq!(json_value_to_i64(&text("9223372036854775808")), None);
    assert_eq!(json_value_to_i64(&text("+5")), Some(5));
    assert_eq!(json_value_to_i64(&text("007")), Some(7));
    assert_eq!(json_value_to_i64(&text("-")), None);
    assert_eq!(json_value_to_i64(&text("")), None);
    assert_eq!(json_value_to_i64(&text(" 4")), None);
    assert_eq!(json_value_to_i64(&Datum::Decimal("1.5".to_string())), None);
    assert_eq!(json_value_to_i64(&Datum::Bool(true)), None);
    for n in [0, 9, 10, -1, 12345, i64::MAX, i64::MIN] {
        assert_eq!(json_value_to_i64(&Datum::Text(signed_text(n))), Some(n));
        assert_eq!(signed_text(n), n.to_string());
    }
}

#[test]
fn number_texts_are_those_of_numbers_and_strings() {
    assert_eq!(json_value_to_number_text(&Datum::Int(-3)).as_deref(), Some("-3"));
    assert_eq!(
        json_value_to_number_text(&Datum::Uint(u64::MAX)).as_deref(),
        Some("18446744073709551615")
    );
    assert_eq!(
        json_value_to_number_text(&Datum::Decimal("0.25".to_string())).as_deref(),
        Some("0.25")
    );
    assert_eq!(json_value_to_number_text(&Datum::Null), None);
    assert_eq!(json_value_to_number_text(&Datum::Bool(true)), None);
    assert_eq!(json_value_to_number_text(&Datum::Document("[1]".to_string())), None);
}

#[test]
fn rows_are_looked_up_by_the_first_key_they_have() {
    let mut row = Row::new();
    row.put("name", text("VIX"));
    row.put("flag", Datum::Bool(false));
    row.put("nothing", Datum::Null);
    row.put("list", Datum::Document("[1,2]".to_string()));
    row.put("count", text("12"));
    row.put("ratio", Datum::Decimal("0.5".to_string()));
    assert_eq!(pick_string(&row, &["missing", "name"]).as_deref(), Some("VIX"));
    assert_eq!(pick_string(&row, &["flag", "name"]).as_deref(), Some("false"));
    assert_eq!(pick_string(&row, &["nothing", "name"]).as_deref(), Some("null"));
    assert_eq!(pick_string(&row, &["list"]).as_deref(), Some("[1,2]"));
    assert_eq!(pick_string(&row, &["missing"]), None);
    assert_eq!(pick_string_or(&row, &["missing"], "else"), "else");
    assert_eq!(pick_i64(&row, &["name", "count"]), Some(12));
    assert_eq!(pick_i64(&row, &["name"]), None);
    let amount = pick_amount(&row, &["name", "flag", "ratio"], "9.0");
    assert_eq!(amount.texts, ["VIX", "0.5", "9.0"]);
    assert_eq!(pick_amount(&row, &["missing"], "9.0").texts, ["9.0"]);
}

#[test]
fn the_last_value_of_a_key_counts() {
    let mut row = Row::new();
    assert!(row.get("a").is_none());
    row.put("a", Datum::Int(1));
    row.put("b", Datum::Int(2));
    row.put("a", Datum::Int(3));
    assert_eq!(shown(row.get("a").unwrap()), "Int(3)");
    assert_eq!(shown(row.get("b").unwrap()), "Int(2)");
    let object = Object::new().with("k", Json::number(1)).with("k", Json::text("x"));
    assert_eq!(object.get("k").unwrap().as_str(), Some("x"));
    assert!(object.get("missing").is_none());
    let array = Array::new().with(Json::flag(true)).with(Json::size(3));
    assert_eq!(array.len(), 2);
}

#[test]
fn values_become_parameters() {
    assert!(matches!(value_to_param(Datum::Null), OwnedParam::Null));
    assert!(matches!(value_to_param(Datum::Bool(true)), OwnedParam::Bool(true)));
    assert!(matches!(value_to_param(Datum::Int(-4)), OwnedParam::I64(-4)));
    assert!(matches!(value_to_param(Datum::Uint(4)), OwnedParam::I64(4)));
    match value_to_param(Datum::Uint(u64::MAX)) {
        OwnedParam::F64(t) => assert_eq!(t, "18446744073709551615"),
        other => panic!("{:?}", other),
    }
    match value_to_param(Datum::Decimal("1e3".to_string())) {
        OwnedParam::F64(t) => assert_eq!(t, "1e3"),
        other => panic!("{:?}", other),
    }
    match value_to_param(text("x")) {
        OwnedParam::Text(t) => assert_eq!(t, "x"),
        other => panic!("{:?}", other),
    }
    match value_to_param(Datum::Document("{\"a\":1}".to_string())) {
        OwnedParam::Json(t) => assert_eq!(t, "{\"a\":1}"),
        other => panic!("{:?}", other),
    }
}

#[test]
fn statements_are_replied_with_rows_or_failures() {
    let cell = || Column {
        name: "n".to_string(),
        oid: INT8,
        ty: "int8".to_string(),
        cell: Cell::Decoded(Decoded::Integer(6)),
    };
    let rows = run_query(Ok(vec![vec![cell()], vec![]])).unwrap();
    assert_eq!(rows.len(), 2);
    assert_eq!(shown(rows[0].get("n").unwrap()), "Int(6)");
    assert!(rows[1].get("n").is_none());
    let late = || ResilienceError::Timeout { nanos: 30_000_000_000 };
    assert_eq!(run_query(Err(late())).unwrap_err().detail, "database query timed out after 30s");
    assert!(run_write(Ok(3)).unwrap().is_empty());
    assert_eq!(run_write(Err(late())).unwrap_err().detail, "database write timed out after 30s");
}

#[test]
fn an_unset_environment_gives_the_defaults() {
    let config = Config::from_env(unset());
    assert_eq!(config.port, 8080);
    assert_eq!(config.api_key, None);
    assert_eq!(config.cockroach_host, DEFAULT_HOST);
    assert_eq!(
        config.cockroach_host,
        "vortex-giraffe-15678.jxf.gcp-us-east1.cockroachlabs.cloud"
    );
    assert_eq!(config.cockroach_port, 26257);
    assert_eq!(config.cockroach_user, "cubiczan");
    assert_eq!(config.cockroach_password, None);
    assert_eq!(config.cockroach_ssl, "require");
}

#[test]
fn the_environment_sets_the_gateway_up() {
    let config = Config::from_env(Environment {
        port: some("9000"),
        api_key: some("  key\u{3000}\n"),
        cockroach_host: some("localhost"),
        cockroach_port: some("70000"),
        cockroach_user: some(""),
        cockroach_password: some(" \t "),
        cockroach_ssl: some("disable"),
    });
    assert_eq!(config.port, 9000);
    assert_eq!(config.api_key.as_deref(), Some("key"));
    assert_eq!(config.cockroach_host, "localhost");
    assert_eq!(config.cockroach_port, 26257);
    assert_eq!(config.cockroach_user, "");
    assert_eq!(config.cockroach_password, None);
    assert_eq!(config.cockroach_ssl, "disable");
    let mut env = unset();
    env.port = some("http");
    assert_eq!(Config::from_env(env).port, 8080);
    assert_eq!(non_empty_env(&some(" a b ")).as_deref(), Some("a b"));
    assert_eq!(non_empty_env(&some("")), None);
    assert_eq!(non_empty_env(&None), None);
}

fn state(password: Option<&str>, ssl: &str) -> AppState {
    let mut env = unset();
    env.cockroach_password = password.map(|p| p.to_string());
    env.cockroach_ssl = some(ssl);
    AppState::new(Arc::new(Config::from_env(env)))
}

#[test]
fn databases_are_reached_with_a_password_and_by_tls() {
    let error = connect_database(&state(None, "require"), "battery_erp").unwrap_err();
    assert_eq!(error.status, Status::ServiceUnavailable);
    assert_eq!(error.detail, "COCKROACH_PASSWORD is required for live database access");
    assert_eq!(connect_database(&state(Some("p"), "require"), "other").unwrap().dbname, "other");
    let plan = connect_database(&state(Some("p"), "require"), "battery_erp").unwrap();
    assert!(plan.tls);
    assert_eq!(plan.dbname, "battery_erp");
    assert_eq!(plan.user, "cubiczan");
    assert_eq!(plan.password, "p");
    assert_eq!(plan.host, DEFAULT_HOST);
    assert_eq!(plan.port, 26257);
    assert!(!connect_database(&state(Some("p"), "disable"), "battery_erp").unwrap().tls);
    assert!(!connect_database(&state(Some("p"), "DisAble"), "battery_erp").unwrap().tls);
    assert!(connect_database(&state(Some("p"), "disabled"), "battery_erp").unwrap().tls);
    assert!(connect_database(&state(Some("p"), ""), "battery_erp").unwrap().tls);
}

#[test]
fn statements_go_to_known_databases_only() {
    let other = Query::plain("other", "SELECT 1");
    for password in [None, Some("p")] {
        let error = plan_statement(&state(password, "require"), &other).unwrap_err();
        assert_eq!(error.status, Status::NotFound);
        assert_eq!(error.detail, "Unknown database: other");
    }
    let known = Query::plain("battery_erp", "SELECT 1");
    let plan = plan_statement(&state(Some("p"), "disable"), &known).unwrap();
    assert_eq!(plan.dbname, "battery_erp");
    assert!(!plan.tls);
    let error = plan_statement(&state(None, "require"), &known).unwrap_err();
    assert_eq!(error.status, Status::ServiceUnavailable);
}

#[test]
fn timeouts_say_how_long_was_waited() {
    let connecting = connect_timeout("1.5s");
    assert_eq!(connecting.status, Status::ServiceUnavailable);
    assert_eq!(connecting.detail, "database connect timed out after 1.5s");
    let writing = query_timeout("write", "2ms");
    assert_eq!(writing.status, Status::ServiceUnavailable);
    assert_eq!(writing.detail, "database write timed out after 2ms");
}

#[test]
fn connect_failures_say_why() {
    assert_eq!((CONNECT_TIMEOUT_SECS, QUERY_TIMEOUT_SECS), (5, 30));
    let timeout = connect_error(ResilienceError::Timeout { nanos: 5_000_000_000 });
    assert_eq!(timeout.status, Status::ServiceUnavailable);
    assert_eq!(timeout.detail, "database connect timed out after 5s");
    let terminal = connect_error(ResilienceError::Terminal("refused".to_string()));
    assert_eq!(terminal.status, Status::ServiceUnavailable);
    assert_eq!(terminal.detail, "refused");
    let exhausted = ResilienceError::Exhausted { attempts: 3, source: "gone".to_string() };
    assert_eq!(connect_error(exhausted).detail, "gone");
}

#[test]
fn statement_failures_say_why() {
    let timeout = query_error("query", ResilienceError::Timeout { nanos: 30_000_000_000 });
    assert_eq!(timeout.status, Status::ServiceUnavailable);
    assert_eq!(timeout.detail, "database query timed out after 30s");
    let refusal = to_sql_error(some("40001"), "restart transaction".to_string());
    assert_eq!(refusal.sqlstate, "40001");
    let inner = ResilienceError::Exhausted { attempts: 5, source: refusal };
    let failure = query_error("write", ResilienceError::Terminal(inner));
    assert_eq!(failure.status, Status::InternalServerError);
    assert_eq!(failure.detail, "restart transaction");
    let unclassified = to_sql_error(None, "broken".to_string());
    assert_eq!(unclassified.sqlstate, "");
    let inner = ResilienceError::Terminal(unclassified);
    assert_eq!(query_error("write", ResilienceError::Terminal(inner)).detail, "broken");
    let late = query_error(
        "write",
        ResilienceError::Terminal(ResilienceError::Timeout { nanos: 1 }),
    );
    assert_eq!(late.status, Status::InternalServerError);
    assert_eq!(late.detail, "database write failed");
}

#[test]
fn errors_are_answered_with_their_status() {
    let errors = [
        (ApiError::bad_request("a"), 400),
        (ApiError::unauthorized("b"), 401),
        (ApiError::not_found("c"), 404),
        (ApiError::internal("d"), 500),
        (ApiError::service_unavailable("e"), 503),
    ];
    for (error, code) in errors {
        let detail = error.detail.clone();
        let (status, body) = error.into_response();
        assert_eq!(status, code);
        assert_eq!(body.get("detail").unwrap().as_str(), Some(detail.as_str()));
    }
}

#[test]
fn column_types_have_their_object_identifiers() {
    let types = [
        (BOOL, Type::BOOL, Decoder::Bool),
        (BYTEA, Type::BYTEA, Decoder::Bytes),
        (NAME, Type::NAME, Decoder::Text),
        (INT8, Type::INT8, Decoder::Int8),
        (INT2, Type::INT2, Decoder::Int2),
        (INT4, Type::INT4, Decoder::Int4),
        (TEXT, Type::TEXT, Decoder::Text),
        (JSON, Type::JSON, Decoder::Json),
        (FLOAT4, Type::FLOAT4, Decoder::Float4),
        (FLOAT8, Type::FLOAT8, Decoder::Float8),
        (BPCHAR, Type::BPCHAR, Decoder::Text),
        (VARCHAR, Type::VARCHAR, Decoder::Text),
        (DATE, Type::DATE, Decoder::Date),
        (TIME, Type::TIME, Decoder::Time),
        (TIMESTAMP, Type::TIMESTAMP, Decoder::Timestamp),
        (TIMESTAMPTZ, Type::TIMESTAMPTZ, Decoder::TimestampTz),
        (UUID, Type::UUID, Decoder::Uuid),
        (JSONB, Type::JSONB, Decoder::Json),
    ];
    for (oid, ty, way) in types {
        assert_eq!(oid, ty.oid());
        assert_eq!(decoder(oid), way);
    }
    assert_eq!(decoder(Type::NUMERIC.oid()), Decoder::Text);
    assert_eq!(decoder(Type::INET.oid()), Decoder::Text);
}

#[test]
fn cells_that_cannot_be_decoded_are_null_or_named() {
    for oid in [BOOL, INT2, INT4, INT8, FLOAT4, FLOAT8, VARCHAR, TEXT, BPCHAR, NAME, JSON, JSONB] {
        assert_eq!(shown(&cell_to_json(oid, "t", &Cell::Failed)), "Null");
    }
    for oid in [Type::NUMERIC.oid(), TIMESTAMPTZ, TIMESTAMP, DATE, TIME, UUID, BYTEA, Type::INET.oid()] {
        assert_eq!(
            shown(&cell_to_json(oid, "inet", &Cell::Failed)),
            "Text(\"<unsupported:inet>\")"
        );
        assert_eq!(shown(&cell_to_json(oid, "inet", &Cell::Null)), "Null");
    }
    assert_eq!(shown(&unsupported_value("point")), "Text(\"<unsupported:point>\")");
}

fn cell(oid: u32, decoded: Decoded) -> String {
    match cell_to_json(oid, "ty", &Cell::Decoded(decoded)) {
        Datum::Text(t) => t,
        other => shown(&other),
    }
}

#[test]
fn decoded_cells_become_values() {
    assert_eq!(cell(BOOL, Decoded::Bool(true)), "Bool(true)");
    assert_eq!(cell(INT8, Decoded::Integer(-5)), "Int(-5)");
    assert_eq!(cell(FLOAT8, Decoded::Float(float(2.5))), "Decimal(\"2.5\")");
    assert_eq!(cell(FLOAT8, Decoded::Float(Real { bits: f64::NAN.to_bits(), text: String::new() })), "Null");
    assert_eq!(cell(TEXT, Decoded::Text("abc".to_string())), "abc");
    assert_eq!(cell(JSONB, Decoded::Json(Datum::Document("[]".to_string()))), "Document(\"[]\")");
}

#[test]
fn moments_are_written() {
    let date = Date { year: 2026, month: 5, day: 9 };
    let time = Time { hour: 4, minute: 3, second: 2, nano: 10_000_000 };
    assert_eq!(cell(DATE, Decoded::Date(date)), "2026-05-09");
    assert_eq!(cell(TIME, Decoded::Time(time)), "04:03:02.010");
    assert_eq!(cell(TIMESTAMP, Decoded::Timestamp(date, time)), "2026-05-09 04:03:02.010");
    assert_eq!(
        cell(TIMESTAMPTZ, Decoded::TimestampTz(date, time)),
        "2026-05-09T04:03:02.010+00:00"
    );
    assert_eq!(
        instant_text(date, Time { nano: 0, ..time }).as_deref(),
        Some("2026-05-09T04:03:02+00:00")
    );
}

#[test]
fn unusual_moments_are_written() {
    let midnight = Time { hour: 0, minute: 0, second: 0, nano: 0 };
    assert_eq!(cell(DATE, Decoded::Date(Date { year: -44, month: 3, day: 15 })), "-0044-03-15");
    assert_eq!(cell(DATE, Decoded::Date(Date { year: 12345, month: 1, day: 1 })), "+12345-01-01");
    assert_eq!(cell(DATE, Decoded::Date(Date { year: 2024, month: 2, day: 29 })), "2024-02-29");
    let no_day = Date { year: 2023, month: 2, day: 29 };
    assert_eq!(cell(DATE, Decoded::Date(no_day)), "<unsupported:ty>");
    assert_eq!(instant_text(no_day, midnight), None);
    assert_eq!(
        cell(TIMESTAMPTZ, Decoded::TimestampTz(Date { year: 12345, month: 1, day: 1 }, midnight)),
        "+12345-01-01T00:00:00+00:00"
    );
    assert_eq!(cell(TIME, Decoded::Time(Time { nano: 1, ..midnight })), "00:00:00.000000001");
    assert_eq!(cell(TIME, Decoded::Time(Time { nano: 25_000, ..midnight })), "00:00:00.000025");
    let leap = Time { hour: 23, minute: 59, second: 59, nano: 1_500_000_000 };
    assert_eq!(cell(TIME, Decoded::Time(leap)), "23:59:60.500");
    assert_eq!(cell(TIME, Decoded::Time(Time { hour: 24, ..midnight })), "<unsupported:ty>");
    let no_leap = Time { hour: 0, minute: 0, second: 1, nano: 1_500_000_000 };
    assert_eq!(cell(TIME, Decoded::Time(no_leap)), "<unsupported:ty>");
}

#[test]
fn uuids_and_bytes_are_written() {
    let bytes = [
        0x12, 0x3e, 0x45, 0x67, 0xe8, 0x9b, 0x12, 0xd3, 0xa4, 0x56, 0x42, 0x66, 0x14, 0x17, 0x40,
        0x00,
    ];
    assert_eq!(cell(UUID, Decoded::Uuid(bytes)), "123e4567-e89b-12d3-a456-426614174000");
    assert_eq!(cell(BYTEA, Decoded::Bytes(vec![0x68, 0x69])), "hi");
    assert_eq!(cell(BYTEA, Decoded::Bytes(vec![0xc3, 0xa9])), "\u{e9}");
    assert_eq!(cell(BYTEA, Decoded::Bytes(vec![0x68, 0xff])), "h\u{fffd}");
}

#[test]
fn columns_become_rows() {
    let column = |name: &str, n: i64| Column {
        name: name.to_string(),
        oid: INT8,
        ty: "int8".to_string(),
        cell: Cell::Decoded(Decoded::Integer(n)),
    };
    let row = row_to_json(&vec![column("a", 1), column("b", 2), column("a", 3)]);
    assert_eq!(shown(row.get("a").unwrap()), "Int(3)");
    assert_eq!(shown(row.get("b").unwrap()), "Int(2)");
    assert!(row_to_json(&vec![]).get("a").is_none());
}

#[test]
fn floats_keep_their_places() {
    let numbers = [1.0e308, 5.0, 0.5, f64::MIN_POSITIVE, 5e-324, 0.0, -0.0, -5e-324, -2.0, -1.0e308];
    for a in numbers {
        for b in numbers {
            assert_eq!(float(a).rank() < float(b).rank(), a < b);
            assert_eq!(float(a).rank() == float(b).rank(), a == b);
        }
        assert!(float(a).finite());
    }
    for x in [f64::NAN, f64::INFINITY, f64::NEG_INFINITY] {
        let x = Real { bits: x.to_bits(), text: String::new() };
        assert!(!x.finite());
        assert_eq!(x.rank(), 0);
        assert!(matches!(x.to_datum(), Datum::Null));
    }
}

#[test]
fn ranking_falls_and_is_stable() {
    assert_eq!(rank_falling(&vec![3, 9, 3, -1, 9]), [1, 4, 0, 2, 3]);
    assert!(rank_falling(&vec![]).is_empty());
}

#[test]
fn texts_are_cut_compared_and_searched() {
    assert_eq!(first_chars("h\u{e9}llo", 2), "h\u{e9}");
    assert_eq!(first_chars("ab", 200), "ab");
    assert_eq!(lower_text("STOCK_\u{c4}z9"), "stock_\u{c4}z9");
    assert!(contains_text("raw_stock", "stock"));
    assert!(contains_text("stock", ""));
    assert!(contains_text("ababac", "abac"));
    assert!(!contains_text("stoc", "stock"));
    assert!(!contains_text("", "a"));
    assert!(comes_before("a", "b"));
    assert!(comes_before("a", "aa"));
    assert!(!comes_before("aa", "a"));
    assert!(!comes_before("a", "a"));
    assert!(comes_before("Z", "a"));
    assert_eq!(decimal_text(0), "0");
    assert_eq!(decimal_text(u64::MAX), "18446744073709551615");
}
