//! Tests for the statement renderers: lifecycle DDL, quoted identifiers,
//! schema batches and the table-presence lookup.

use pglit::{
    get_sql_statement, quote_identifier, render_create_schemas, render_table_lookup,
    table_present, valid_db_name, valid_schema_list, valid_table_name, Action,
};

#[test]
fn create_statement_exact() {
    let stmt = get_sql_statement(Action::Create, "pglit_db_test");
    assert_eq!(stmt, "CREATE DATABASE pglit_db_test;");
}

#[test]
fn drop_statement_exact() {
    let stmt = get_sql_statement(Action::Drop, "pglit_db_test");
    assert_eq!(stmt, "DROP DATABASE pglit_db_test;");
}

#[test]
fn force_drop_statement_exact() {
    let stmt = get_sql_statement(Action::ForceDrop, "pgtools_db_test");
    assert_eq!(stmt, "DROP DATABASE pgtools_db_test WITH (FORCE);");
}

#[test]
fn statement_has_no_placeholder_left() {
    let stmt = get_sql_statement(Action::Create, "pglit_db_test");
    assert!(!stmt.contains('$'));
    assert_eq!(stmt.matches("CREATE DATABASE ").count(), 1);
    assert_eq!(stmt.matches("pglit_db_test").count(), 1);
}

#[test]
fn quoted_identifier_wraps_name() {
    assert_eq!(quote_identifier("pglit-test"), "\"pglit-test\"");
}

#[test]
fn quoted_identifier_strips_embedded_quotes() {
    assert_eq!(quote_identifier("we\"ird\""), "\"weird\"");
}

#[test]
fn statement_with_quoted_identifier() {
    let quoted = quote_identifier("pglit-test");
    let stmt = get_sql_statement(Action::Create, quoted.as_str());
    assert_eq!(stmt, "CREATE DATABASE \"pglit-test\";");
}

#[test]
fn empty_db_name_is_invalid() {
    assert!(!valid_db_name(""));
    assert!(valid_db_name("pglit_db_test"));
}

#[test]
fn empty_table_name_is_invalid() {
    assert!(!valid_table_name(""));
    assert!(valid_table_name("student"));
}

#[test]
fn empty_schema_list_is_invalid() {
    assert!(!valid_schema_list(&Vec::new()));
    assert!(valid_schema_list(&vec!["auth".to_string()]));
}

#[test]
fn schema_batch_skips_empty_names() {
    let names = vec!["auth".to_string(), "".to_string(), "app".to_string()];
    let stmt = render_create_schemas(&names, false);
    assert_eq!(stmt, "CREATE SCHEMA auth;CREATE SCHEMA app;");
}

#[test]
fn schema_batch_with_search_path() {
    let names = vec!["auth".to_string(), "".to_string(), "app".to_string()];
    let stmt = render_create_schemas(&names, true);
    assert_eq!(
        stmt,
        "CREATE SCHEMA auth;CREATE SCHEMA app;SET search_path TO auth, app, public;"
    );
}

#[test]
fn schema_batch_single_name() {
    let names = vec!["auth".to_string()];
    let stmt = render_create_schemas(&names, true);
    assert_eq!(stmt, "CREATE SCHEMA auth;SET search_path TO auth, public;");
}

#[test]
fn table_lookup_defaults_to_public_schema() {
    let stmt = render_table_lookup("", "student");
    assert_eq!(
        stmt,
        "SELECT table_name FROM information_schema.tables \
         WHERE table_schema = 'public' AND table_name = 'student';"
    );
}

#[test]
fn table_lookup_uses_given_schema() {
    let stmt = render_table_lookup("auth", "student");
    assert_eq!(
        stmt,
        "SELECT table_name FROM information_schema.tables \
         WHERE table_schema = 'auth' AND table_name = 'student';"
    );
}

#[test]
fn table_present_is_row_count_nonzero() {
    assert!(!table_present(0));
    assert!(table_present(1));
    assert!(table_present(7));
}
