//! Database-lifecycle management for a PostgreSQL-style server: rendering of
//! CREATE / DROP / DROP ... WITH (FORCE) statements, normalization of server
//! errors into a uniform message/code shape, and the orchestration state
//! machine that a host application drives to create, drop or force-drop a
//! database and to acquire connections idempotently.
//!
//! The library itself performs no I/O: it renders the exact statements to
//! execute, decides every transition of a lifecycle call, and classifies the
//! outcome. The embedding application owns the connections and hands every
//! connect/execute result back as an event.

pub mod errors;
pub mod lifecycle;
pub mod policy;
pub mod schema;
pub mod template;
pub mod text;

pub use errors::{normalize_parts, CustomError};
pub use lifecycle::{ConnectionParameters, Event, Orchestrator, Phase, Step};
pub use policy::{create_followup, is_duplicate_db_code};
pub use schema::{
    render_create_schemas, render_table_lookup, schemas_outcome, table_present, valid_schema_list,
    valid_table_name,
};
pub use template::{get_sql_statement, quote_identifier, valid_db_name, Action};
pub use text::str_eq;
