use db_proxy::identifiers::{ensure_database, ensure_identifier, quote_ident, DATABASES};
use db_proxy::{error::Status, is_valid_identifier};

#[test]
fn validates_safe_identifiers() {
    assert!(is_valid_identifier("closed_loop_finance"));
    assert!(is_valid_identifier("table_123"));
    assert!(!is_valid_identifier(""));
    assert!(!is_valid_identifier("users;drop"));
    assert!(!is_valid_identifier("public.users"));
    assert!(!is_valid_identifier("user-name"));
}

#[test]
fn identifiers_are_ascii_words() {
    assert!(is_valid_identifier("_"));
    assert!(is_valid_identifier("0"));
    assert!(is_valid_identifier("azAZ09_"));
    assert!(!is_valid_identifier("na\u{ef}ve"));
    assert!(!is_valid_identifier("a b"));
    assert!(!is_valid_identifier("a\"b"));
    assert!(!is_valid_identifier("\u{661}"));
}

#[test]
fn the_ten_databases_are_known() {
    assert_eq!(DATABASES.len(), 10);
    for database in DATABASES {
        assert!(ensure_database(database).is_ok());
    }
    for i in 0..10 {
        for j in 0..i {
            assert_ne!(DATABASES[i], DATABASES[j]);
        }
    }
}

#[test]
fn other_databases_are_not_known() {
    let error = ensure_database("postgres").unwrap_err();
    assert_eq!(error.status, Status::NotFound);
    assert_eq!(error.detail, "Unknown database: postgres");
    assert!(ensure_database("Battery_erp").is_err());
    assert!(ensure_database("battery_er").is_err());
    assert!(ensure_database("").is_err());
}

#[test]
fn names_are_refused_by_their_kind() {
    assert!(ensure_identifier("table", "orders").is_ok());
    let error = ensure_identifier("table", "orders;").unwrap_err();
    assert_eq!(error.status, Status::BadRequest);
    assert_eq!(error.detail, "Invalid table name");
    assert_eq!(ensure_identifier("column", "").unwrap_err().detail, "Invalid column name");
}

#[test]
fn valid_names_hold_no_inner_quote() {
    let quoted = quote_ident("orders_2026");
    assert_eq!(quoted, "\"orders_2026\"");
    assert_eq!(quoted.matches('"').count(), 2);
}
