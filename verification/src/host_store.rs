//! The launcher's own small database: which product was launched last.
use crate::database::{sql_execute, sql_execute_batch, sql_optional_nullable_text, SqlParam};
use crate::media_query::text_arg;
use crate::statements::{statement_view, text_statement, SqlStatement};
use vstd::prelude::*;

verus! {

/// The launcher's tables, and the one row that holds its state.
pub const HOST_SCHEMA_SQL: &'static str = "
    PRAGMA foreign_keys=ON; PRAGMA journal_mode=WAL;
    CREATE TABLE IF NOT EXISTS obj_host_launcher_state (
        id INTEGER PRIMARY KEY CHECK(id=1), last_product_key TEXT,
        updated_at TEXT NOT NULL DEFAULT CURRENT_TIMESTAMP
    );
    INSERT OR IGNORE INTO obj_host_launcher_state(id,last_product_key) VALUES(1,NULL);
    CREATE TABLE IF NOT EXISTS obj_host_window_state (
        window_key TEXT PRIMARY KEY, x INTEGER, y INTEGER, width INTEGER, height INTEGER,
        is_visible INTEGER NOT NULL DEFAULT 0, updated_at TEXT NOT NULL DEFAULT CURRENT_TIMESTAMP
    );
";

pub const LAST_PRODUCT_SQL: &'static str = "SELECT last_product_key FROM obj_host_launcher_state WHERE id=1";

pub const REMEMBER_PRODUCT_SQL: &'static str = "UPDATE obj_host_launcher_state SET last_product_key=?1,updated_at=CURRENT_TIMESTAMP WHERE id=1";

/// Creates the launcher's tables where they are missing (`HOST_SCHEMA_SQL`).
pub fn prepare_host_schema(connection: &rusqlite::Connection) -> (r: Result<(), rusqlite::Error>) {
    sql_execute_batch(connection, HOST_SCHEMA_SQL)
}

/// The product saved last: none where the state row is missing or holds
/// no key.
pub fn saved_product(found: Option<Option<String>>) -> (r: Option<String>)
    ensures
        r == (match found {
            Some(Some(k)) => Some(k),
            _ => None,
        }),
{
    match found {
        Some(Some(k)) => Some(k),
        _ => None,
    }
}

/// Reads the saved product key (`LAST_PRODUCT_SQL`, no parameters).
pub fn last_product(connection: &rusqlite::Connection) -> (r: Result<Option<String>, rusqlite::Error>) {
    let none: Vec<SqlParam> = Vec::new();
    match sql_optional_nullable_text(connection, LAST_PRODUCT_SQL, &none) {
        Ok(found) => Ok(saved_product(found)),
        Err(e) => Err(e),
    }
}

/// The statement that saves `key` as the product launched last.
pub fn remember_product_statement(key: &str) -> (r: SqlStatement)
    ensures
        statement_view(r) == (REMEMBER_PRODUCT_SQL@, seq![text_arg(key@)]),
{
    text_statement(REMEMBER_PRODUCT_SQL, String::from_str(key))
}

/// Saves `key` as the product launched last (`remember_product_statement`).
pub fn remember_product(connection: &rusqlite::Connection, key: &str) -> (r: Result<(), rusqlite::Error>) {
    let statement = remember_product_statement(key);
    match sql_execute(connection, statement.sql, &statement.params) {
        Ok(_) => Ok(()),
        Err(e) => Err(e),
    }
}

} // verus!
