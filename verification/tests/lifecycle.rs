//! Tests for the lifecycle orchestrator, the error normalizer and the
//! idempotent follow-up policy, driven with simulated server responses.

use pglit::{
    create_followup, is_duplicate_db_code, normalize_parts, schemas_outcome, str_eq, Action,
    ConnectionParameters, CustomError, Event, Orchestrator, Step,
};

/// A real driver error, produced without any I/O: connecting with no host
/// configured fails immediately with a connection-level (non-server) error.
fn make_pg_error() -> tokio_postgres::Error {
    let rt = tokio::runtime::Builder::new_current_thread().build().unwrap();
    rt.block_on(async {
        match tokio_postgres::Config::new().connect(tokio_postgres::NoTls).await {
            Ok(_) => panic!("connecting without a host should fail"),
            Err(e) => e,
        }
    })
}

fn make_custom(code: &str, message: &str) -> CustomError {
    CustomError {
        message: message.to_string(),
        code: code.to_string(),
        pg_error: make_pg_error(),
    }
}

fn make_params(dbname: &str) -> ConnectionParameters {
    ConnectionParameters {
        host: "127.0.0.1".to_string(),
        port: 5432,
        user: "john_doe".to_string(),
        password: "secret".to_string(),
        dbname: dbname.to_string(),
    }
}

#[test]
fn str_eq_compares_characters() {
    assert!(str_eq("42P04", "42P04"));
    assert!(!str_eq("42P04", "3D000"));
    assert!(!str_eq("42P0", "42P04"));
    assert!(str_eq("", ""));
}

#[test]
fn duplicate_code_recognized() {
    assert!(is_duplicate_db_code("42P04"));
    assert!(!is_duplicate_db_code("3D000"));
    assert!(!is_duplicate_db_code(""));
}

#[test]
fn normalize_parts_connection_level() {
    let (message, code) = normalize_parts(None, None);
    assert_eq!(message, "");
    assert_eq!(code, "");
}

#[test]
fn normalize_parts_server_error() {
    let (message, code) = normalize_parts(
        Some("database \"pglit_db_test\" already exists"),
        Some("42P04"),
    );
    assert_eq!(message, "database pglit_db_test already exists");
    assert_eq!(code, "42P04");
}

#[test]
fn custom_error_from_connection_failure() {
    let err = CustomError::new(make_pg_error());
    assert_eq!(err.message, "");
    assert_eq!(err.code, "");
    // the underlying error is preserved untouched
    assert_eq!(err.pg_error.to_string(), "invalid configuration");
}

#[test]
fn schemas_outcome_passes_success_through() {
    assert!(schemas_outcome(Ok(())).is_ok());
}

#[test]
fn schemas_outcome_normalizes_failure() {
    match schemas_outcome(Err(make_pg_error())) {
        Err(e) => {
            // a connection-level failure: no server detail, error preserved
            assert_eq!(e.message, "");
            assert_eq!(e.code, "");
            assert_eq!(e.pg_error.to_string(), "invalid configuration");
        }
        Ok(()) => panic!("a failed batch must be delivered as an error"),
    }
}

#[test]
fn orchestrator_redirects_to_admin_database() {
    let mut params = make_params("pglit_db_test");
    let orch = Orchestrator::new(Action::Create, "pglit_db_test", false, &mut params);
    assert_eq!(params.dbname, "postgres");
    assert_eq!(params.host, "127.0.0.1");
    assert_eq!(params.user, "john_doe");
    assert!(matches!(orch.phase, pglit::Phase::AdminConnect));
}

#[test]
fn create_scenario_success_then_duplicate() {
    // a create on a fresh server: connect, execute, row count delivered
    let mut params = make_params("pglit_db_test");
    let mut orch = Orchestrator::new(Action::Create, "pglit_db_test", false, &mut params);
    match orch.step(&mut params, Event::Connected) {
        Step::Execute(stmt) => assert_eq!(stmt, "CREATE DATABASE pglit_db_test;"),
        Step::Finished(_) => panic!("expected an execute step"),
    }
    assert_eq!(params.dbname, "pglit_db_test");
    match orch.step(&mut params, Event::Executed(0)) {
        Step::Finished(Ok(rows)) => assert_eq!(rows, 0),
        _ => panic!("expected a successful outcome"),
    }

    // an immediate repeat: the server reports duplicate database, surfaced as-is
    let mut params2 = make_params("pglit_db_test");
    let mut orch2 = Orchestrator::new(Action::Create, "pglit_db_test", false, &mut params2);
    let _ = orch2.step(&mut params2, Event::Connected);
    let dup = make_custom("42P04", "database pglit_db_test already exists");
    match orch2.step(&mut params2, Event::ExecuteFailed(dup)) {
        Step::Finished(Err(e)) => {
            assert_eq!(e.code, "42P04");
            assert_eq!(e.message, "database pglit_db_test already exists");
        }
        _ => panic!("expected a failure outcome"),
    }
}

#[test]
fn drop_then_drop_surfaces_3d000() {
    let mut params = make_params("pglit_db_test");
    let mut orch = Orchestrator::new(Action::Drop, "pglit_db_test", false, &mut params);
    match orch.step(&mut params, Event::Connected) {
        Step::Execute(stmt) => assert_eq!(stmt, "DROP DATABASE pglit_db_test;"),
        Step::Finished(_) => panic!("expected an execute step"),
    }
    match orch.step(&mut params, Event::Executed(0)) {
        Step::Finished(Ok(_)) => {}
        _ => panic!("expected a successful outcome"),
    }

    // dropping the already-dropped database: the server's code comes through
    let mut params2 = make_params("pglit_db_test");
    let mut orch2 = Orchestrator::new(Action::Drop, "pglit_db_test", false, &mut params2);
    let _ = orch2.step(&mut params2, Event::Connected);
    let gone = make_custom("3D000", "database pglit_db_test does not exist");
    match orch2.step(&mut params2, Event::ExecuteFailed(gone)) {
        Step::Finished(Err(e)) => assert_eq!(e.code, "3D000"),
        _ => panic!("expected a failure outcome"),
    }
}

#[test]
fn connect_failure_is_delivered_not_swallowed() {
    let mut params = make_params("pglit_db_test");
    let mut orch = Orchestrator::new(Action::Create, "pglit_db_test", false, &mut params);
    let failed = CustomError::new(make_pg_error());
    match orch.step(&mut params, Event::ConnectFailed(failed)) {
        Step::Finished(Err(e)) => {
            assert_eq!(e.code, "");
            assert_eq!(e.message, "");
        }
        _ => panic!("expected a failure outcome"),
    }
    // the parameters were not redirected back: the connect never happened
    assert_eq!(params.dbname, "postgres");
}

#[test]
fn force_drop_scenario() {
    // force-drop renders the FORCE clause, so sessions connected to the
    // target are terminated and the drop succeeds where a plain drop fails
    let mut params = make_params("pgtools_db_test");
    let mut orch = Orchestrator::new(Action::ForceDrop, "pgtools_db_test", false, &mut params);
    match orch.step(&mut params, Event::Connected) {
        Step::Execute(stmt) => assert_eq!(stmt, "DROP DATABASE pgtools_db_test WITH (FORCE);"),
        Step::Finished(_) => panic!("expected an execute step"),
    }
    match orch.step(&mut params, Event::Executed(0)) {
        Step::Finished(Ok(_)) => {}
        _ => panic!("expected a successful outcome"),
    }

    // the plain drop against a database in use: the server's error surfaces
    let mut params2 = make_params("pgtools_db_test");
    let mut orch2 = Orchestrator::new(Action::Drop, "pgtools_db_test", false, &mut params2);
    let _ = orch2.step(&mut params2, Event::Connected);
    let in_use = make_custom("55006", "database pgtools_db_test is being accessed by other users");
    match orch2.step(&mut params2, Event::ExecuteFailed(in_use)) {
        Step::Finished(Err(e)) => assert_eq!(e.code, "55006"),
        _ => panic!("expected a failure outcome"),
    }
}

#[test]
fn create_pool_twice_is_idempotent() {
    // first run: the create succeeds, the pool is built
    assert!(create_followup(Ok(0)).is_ok());
    // second run with the same configuration: duplicate database, the pool
    // is still built
    let dup = make_custom("42P04", "database pglit_test_db already exists");
    assert!(create_followup(Err(dup)).is_ok());
}

#[test]
fn other_failure_surfaces_underlying_error() {
    let denied = make_custom("42501", "permission denied to create database");
    match create_followup(Err(denied)) {
        Err(e) => assert_eq!(e.to_string(), "invalid configuration"),
        Ok(()) => panic!("a non-duplicate failure must not proceed"),
    }
}

#[test]
fn connect_after_create_round_trip() {
    // create(name) succeeded ...
    let mut params = make_params("pglit_db_test_connect");
    let mut orch = Orchestrator::new(Action::Create, "pglit_db_test_connect", false, &mut params);
    let _ = orch.step(&mut params, Event::Connected);
    let outcome = match orch.step(&mut params, Event::Executed(0)) {
        Step::Finished(outcome) => outcome,
        Step::Execute(_) => panic!("expected a finished step"),
    };
    // ... so connect-or-create proceeds to connect, and the parameters point
    // at the target database again, not at the administrative one
    assert!(create_followup(outcome).is_ok());
    assert_eq!(params.dbname, "pglit_db_test_connect");

    // the idempotent path: a duplicate-database failure also proceeds
    let dup = make_custom("42P04", "");
    assert!(create_followup(Err(dup)).is_ok());
}
