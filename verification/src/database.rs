//! The media library's SQLite store, reached through rusqlite: the
//! connection it is opened on, and the statements the repositories run.
//! What a statement returns depends on what is on disk, so these calls
//! promise nothing of their results beyond their shape.
use crate::media::{MediaError, MediaErrorKind};
use crate::text::{chars_of, extend_str, string_of};
use rusqlite::OptionalExtension;
use vstd::prelude::*;

verus! {

#[verifier::external_type_specification]
#[verifier::external_body]
pub struct ExConnection(rusqlite::Connection);

#[verifier::external_type_specification]
#[verifier::external_body]
pub struct ExSqlError(rusqlite::Error);

#[verifier::external_type_specification]
#[verifier::external_body]
pub struct ExSqlValue(rusqlite::types::Value);

#[verifier::external_type_specification]
#[verifier::external_body]
pub struct ExTransaction<'a>(rusqlite::Transaction<'a>);

/// The application database: one SQLite connection.
pub struct AppDatabase {
    pub connection: rusqlite::Connection,
}

impl AppDatabase {
    pub fn new(connection: rusqlite::Connection) -> (r: AppDatabase)
        ensures
            r.connection == connection,
    {
        AppDatabase { connection }
    }

    pub fn connection(&self) -> (r: &rusqlite::Connection)
        ensures
            *r == self.connection,
    {
        &self.connection
    }
}

/// A statement parameter.
pub enum SqlParam {
    Integer(i64),
    Text(String),
    Null,
}

/// A streaming-link row: id, entry id, provider, URL, link type, preferred
/// flag, notes, created and updated times.
pub type LinkRow = (i64, i64, String, String, String, i64, String, String, String);

/// A tag row: id, name, created and updated times.
pub type TagRow = (i64, String, String, String);

/// The parameters as rusqlite values, one for one.
#[verifier::external_body]
fn sql_values(params: &Vec<SqlParam>) -> Vec<rusqlite::types::Value> {
    params.iter().map(
        |p| match p {
            SqlParam::Integer(i) => rusqlite::types::Value::Integer(*i),
            SqlParam::Text(t) => rusqlite::types::Value::Text(t.clone()),
            SqlParam::Null => rusqlite::types::Value::Null,
        },
    ).collect()
}

/// One column of a result row, as SQLite stored it; a real number is only
/// marked, its value is not read.
pub enum SqlCell {
    Integer(i64),
    Text(String),
    Null,
    Real,
    Blob,
}

/// A rusqlite value as a cell, variant for variant.
#[verifier::external_body]
fn sql_cell(value: rusqlite::types::Value) -> SqlCell {
    match value {
        rusqlite::types::Value::Integer(i) => SqlCell::Integer(i),
        rusqlite::types::Value::Text(t) => SqlCell::Text(t),
        rusqlite::types::Value::Null => SqlCell::Null,
        rusqlite::types::Value::Real(_) => SqlCell::Real,
        rusqlite::types::Value::Blob(_) => SqlCell::Blob,
    }
}

/// `Statement::query_map` reading every column of every row as a cell.
#[verifier::external_body]
pub fn sql_cell_rows(connection: &rusqlite::Connection, sql: &str, params: &Vec<SqlParam>) -> Result<
    Vec<Vec<SqlCell>>,
    rusqlite::Error,
> {
    let mut statement = connection.prepare(sql)?;
    let n = statement.column_count();
    let rows = statement.query_map(
        rusqlite::params_from_iter(sql_values(params)),
        |row| (0..n).map(|i| row.get::<_, rusqlite::types::Value>(i).map(sql_cell)).collect(),
    )?;
    rows.collect()
}

pub open spec fn cell_int(c: SqlCell) -> Option<i64> {
    match c {
        SqlCell::Integer(i) => Some(i),
        _ => None,
    }
}

pub open spec fn cell_text(c: SqlCell) -> Option<Seq<char>> {
    match c {
        SqlCell::Text(t) => Some(t@),
        _ => None,
    }
}

pub open spec fn cell_opt_int(c: SqlCell) -> Option<Option<i64>> {
    match c {
        SqlCell::Integer(i) => Some(Some(i)),
        SqlCell::Null => Some(None),
        _ => None,
    }
}

pub open spec fn cell_opt_text(c: SqlCell) -> Option<Option<Seq<char>>> {
    match c {
        SqlCell::Text(t) => Some(Some(t@)),
        SqlCell::Null => Some(None),
        _ => None,
    }
}

/// An integer column.
pub fn int_cell(cells: &Vec<SqlCell>, i: usize) -> (r: Option<i64>)
    ensures
        r == (if i < cells@.len() { cell_int(cells@[i as int]) } else { None }),
{
    if i < cells.len() {
        match &cells[i] {
            SqlCell::Integer(v) => Some(*v),
            _ => None,
        }
    } else {
        None
    }
}

/// A text column.
pub fn text_cell(cells: &Vec<SqlCell>, i: usize) -> (r: Option<String>)
    ensures
        r is Some <==> (i < cells@.len() && cell_text(cells@[i as int]) is Some),
        r matches Some(t) ==> Some(t@) == cell_text(cells@[i as int]),
{
    if i < cells.len() {
        match &cells[i] {
            SqlCell::Text(t) => Some(string_of(&chars_of(t.as_str()))),
            _ => None,
        }
    } else {
        None
    }
}

/// An integer column that may be NULL.
pub fn opt_int_cell(cells: &Vec<SqlCell>, i: usize) -> (r: Option<Option<i64>>)
    ensures
        r == (if i < cells@.len() { cell_opt_int(cells@[i as int]) } else { None }),
{
    if i < cells.len() {
        match &cells[i] {
            SqlCell::Integer(v) => Some(Some(*v)),
            SqlCell::Null => Some(None),
            _ => None,
        }
    } else {
        None
    }
}

/// A text column that may be NULL.
pub fn opt_text_cell(cells: &Vec<SqlCell>, i: usize) -> (r: Option<Option<String>>)
    ensures
        r is Some <==> (i < cells@.len() && cell_opt_text(cells@[i as int]) is Some),
        r matches Some(Some(t)) ==> cell_opt_text(cells@[i as int]) == Some(Some(t@)),
        r matches Some(None) ==> cell_opt_text(cells@[i as int]) == Some(None::<Seq<char>>),
{
    if i < cells.len() {
        match &cells[i] {
            SqlCell::Text(t) => Some(Some(string_of(&chars_of(t.as_str())))),
            SqlCell::Null => Some(None),
            _ => None,
        }
    } else {
        None
    }
}

/// `Display` of a rusqlite error.
#[verifier::external_body]
pub fn sql_error_text(error: &rusqlite::Error) -> String {
    error.to_string()
}

/// `Connection::execute`: the number of rows changed, or the error.
#[verifier::external_body]
pub fn sql_execute(connection: &rusqlite::Connection, sql: &str, params: &Vec<SqlParam>) -> Result<
    usize,
    rusqlite::Error,
> {
    connection.execute(sql, rusqlite::params_from_iter(sql_values(params)))
}

/// `Connection::execute_batch`: runs the statements in order, stopping at
/// the first that fails.
#[verifier::external_body]
pub fn sql_execute_batch(connection: &rusqlite::Connection, sql: &str) -> Result<(), rusqlite::Error> {
    connection.execute_batch(sql)
}

/// The error rusqlite names `InvalidQuery`.
#[verifier::external_body]
pub fn invalid_query_error() -> rusqlite::Error {
    rusqlite::Error::InvalidQuery
}

/// `Connection::last_insert_rowid`.
#[verifier::external_body]
pub fn sql_last_insert_rowid(connection: &rusqlite::Connection) -> i64 {
    connection.last_insert_rowid()
}

/// `Connection::unchecked_transaction`: a transaction that rolls back when
/// dropped uncommitted.
#[verifier::external_body]
pub fn sql_begin(connection: &rusqlite::Connection) -> Result<
    rusqlite::Transaction<'_>,
    rusqlite::Error,
> {
    connection.unchecked_transaction()
}

/// The connection a transaction runs on (`Deref` of `Transaction`).
#[verifier::external_body]
pub fn sql_in<'a>(transaction: &'a rusqlite::Transaction<'_>) -> &'a rusqlite::Connection {
    transaction
}

/// `Transaction::commit`.
#[verifier::external_body]
pub fn sql_commit(transaction: rusqlite::Transaction<'_>) -> Result<(), rusqlite::Error> {
    transaction.commit()
}

/// `Connection::query_row` reading column 0 as an integer, with no row
/// read as nothing (`OptionalExtension::optional`).
#[verifier::external_body]
pub fn sql_optional_i64(connection: &rusqlite::Connection, sql: &str, params: &Vec<SqlParam>) -> Result<
    Option<i64>,
    rusqlite::Error,
> {
    connection.query_row(sql, rusqlite::params_from_iter(sql_values(params)), |row| row.get(0)).optional()
}

/// `Connection::query_row` reading column 0 as text, with no row read as
/// nothing.
#[verifier::external_body]
pub fn sql_optional_text(connection: &rusqlite::Connection, sql: &str, params: &Vec<SqlParam>) -> Result<
    Option<String>,
    rusqlite::Error,
> {
    connection.query_row(sql, rusqlite::params_from_iter(sql_values(params)), |row| row.get(0)).optional()
}

/// `Connection::query_row` reading column 0 as text that may be NULL, with
/// no row read as nothing.
#[verifier::external_body]
pub fn sql_optional_nullable_text(
    connection: &rusqlite::Connection,
    sql: &str,
    params: &Vec<SqlParam>,
) -> Result<Option<Option<String>>, rusqlite::Error> {
    connection.query_row(sql, rusqlite::params_from_iter(sql_values(params)), |row| row.get(0)).optional()
}

/// `Connection::query_row` reading columns 0 and 1 as text, with no row
/// read as nothing.
#[verifier::external_body]
pub fn sql_optional_text_pair(
    connection: &rusqlite::Connection,
    sql: &str,
    params: &Vec<SqlParam>,
) -> Result<Option<(String, String)>, rusqlite::Error> {
    connection.query_row(
        sql,
        rusqlite::params_from_iter(sql_values(params)),
        |row| Ok((row.get(0)?, row.get(1)?)),
    ).optional()
}

/// `Connection::query_row` reading a title's source identity (text,
/// optional integer, optional text), with no row read as nothing.
#[verifier::external_body]
pub fn sql_optional_identity(
    connection: &rusqlite::Connection,
    sql: &str,
    params: &Vec<SqlParam>,
) -> Result<Option<(String, Option<i64>, Option<String>)>, rusqlite::Error> {
    connection.query_row(
        sql,
        rusqlite::params_from_iter(sql_values(params)),
        |row| Ok((row.get(0)?, row.get(1)?, row.get(2)?)),
    ).optional()
}

/// `Connection::query_row` reading an episode's id, season and episode
/// numbers, name and air date, with no row read as nothing.
#[verifier::external_body]
pub fn sql_optional_next_episode(
    connection: &rusqlite::Connection,
    sql: &str,
    params: &Vec<SqlParam>,
) -> Result<Option<(i64, i64, i64, String, String)>, rusqlite::Error> {
    connection.query_row(
        sql,
        rusqlite::params_from_iter(sql_values(params)),
        |row| Ok((row.get(0)?, row.get(1)?, row.get(2)?, row.get(3)?, row.get(4)?)),
    ).optional()
}

/// `Statement::query_map` reading every row as two texts.
#[verifier::external_body]
pub fn sql_text_pair_rows(connection: &rusqlite::Connection, sql: &str, params: &Vec<SqlParam>) -> Result<
    Vec<(String, String)>,
    rusqlite::Error,
> {
    let mut statement = connection.prepare(sql)?;
    let rows = statement.query_map(
        rusqlite::params_from_iter(sql_values(params)),
        |row| Ok((row.get(0)?, row.get(1)?)),
    )?;
    rows.collect()
}

/// `Connection::query_row` reading the settings row: two texts, an
/// integer and a text.
#[verifier::external_body]
pub fn sql_settings_row(connection: &rusqlite::Connection, sql: &str) -> Result<
    (String, String, i64, String),
    rusqlite::Error,
> {
    connection.query_row(sql, [], |row| Ok((row.get(0)?, row.get(1)?, row.get(2)?, row.get(3)?)))
}

/// `Connection::query_row` reading one tag row.
#[verifier::external_body]
pub fn sql_tag_row(connection: &rusqlite::Connection, sql: &str, params: &Vec<SqlParam>) -> Result<
    TagRow,
    rusqlite::Error,
> {
    connection.query_row(
        sql,
        rusqlite::params_from_iter(sql_values(params)),
        |row| Ok((row.get(0)?, row.get(1)?, row.get(2)?, row.get(3)?)),
    )
}

/// `Connection::query_row` reading one streaming-link row.
#[verifier::external_body]
pub fn sql_link_row(connection: &rusqlite::Connection, sql: &str, params: &Vec<SqlParam>) -> Result<
    LinkRow,
    rusqlite::Error,
> {
    connection.query_row(
        sql,
        rusqlite::params_from_iter(sql_values(params)),
        |row| Ok((row.get(0)?, row.get(1)?, row.get(2)?, row.get(3)?, row.get(4)?, row.get(5)?, row.get(6)?, row.get(7)?, row.get(8)?)),
    )
}

/// `Statement::query_map` reading column 0 of every row as an integer.
#[verifier::external_body]
pub fn sql_i64_rows(connection: &rusqlite::Connection, sql: &str, params: &Vec<SqlParam>) -> Result<
    Vec<i64>,
    rusqlite::Error,
> {
    let mut statement = connection.prepare(sql)?;
    let rows = statement.query_map(rusqlite::params_from_iter(sql_values(params)), |row| row.get(0))?;
    rows.collect()
}

/// `Statement::query_map` reading every row as a tag row.
#[verifier::external_body]
pub fn sql_tag_rows(connection: &rusqlite::Connection, sql: &str, params: &Vec<SqlParam>) -> Result<
    Vec<TagRow>,
    rusqlite::Error,
> {
    let mut statement = connection.prepare(sql)?;
    let rows = statement.query_map(
        rusqlite::params_from_iter(sql_values(params)),
        |row| Ok((row.get(0)?, row.get(1)?, row.get(2)?, row.get(3)?)),
    )?;
    rows.collect()
}

/// `Statement::query_map` reading every row as a streaming-link row.
#[verifier::external_body]
pub fn sql_link_rows(connection: &rusqlite::Connection, sql: &str, params: &Vec<SqlParam>) -> Result<
    Vec<LinkRow>,
    rusqlite::Error,
> {
    let mut statement = connection.prepare(sql)?;
    let rows = statement.query_map(
        rusqlite::params_from_iter(sql_values(params)),
        |row| Ok((row.get(0)?, row.get(1)?, row.get(2)?, row.get(3)?, row.get(4)?, row.get(5)?, row.get(6)?, row.get(7)?, row.get(8)?)),
    )?;
    rows.collect()
}

/// An episode row with its progress: the episode's columns, then the
/// watched flag, watched time and notes of its progress (0 and empty texts
/// when there is none).
pub struct EpisodeRow {
    pub id: i64,
    pub external_id: Option<i64>,
    pub season_number: i64,
    pub episode_number: i64,
    pub name: String,
    pub overview: String,
    pub air_date: String,
    pub runtime_minutes: Option<i64>,
    pub still_path: String,
    pub is_present_in_source: i64,
    pub is_watched: i64,
    pub watched_at: String,
    pub notes: String,
}

/// A season row.
pub struct SeasonRow {
    pub id: i64,
    pub external_id: Option<i64>,
    pub season_number: i64,
    pub name: String,
    pub overview: String,
    pub air_date: String,
    pub poster_path: String,
    pub episode_count: i64,
    pub is_present_in_source: i64,
}

/// `Statement::query_map` reading every row as an episode row, column by
/// column.
#[verifier::external_body]
pub fn sql_episode_rows(connection: &rusqlite::Connection, sql: &str, params: &Vec<SqlParam>) -> Result<
    Vec<EpisodeRow>,
    rusqlite::Error,
> {
    let mut statement = connection.prepare(sql)?;
    let rows = statement.query_map(rusqlite::params_from_iter(sql_values(params)), |r| Ok(EpisodeRow {
        id: r.get(0)?, external_id: r.get(1)?, season_number: r.get(2)?, episode_number: r.get(3)?,
        name: r.get(4)?, overview: r.get(5)?, air_date: r.get(6)?, runtime_minutes: r.get(7)?,
        still_path: r.get(8)?, is_present_in_source: r.get(9)?, is_watched: r.get(10)?,
        watched_at: r.get(11)?, notes: r.get(12)?,
    }))?;
    rows.collect()
}

/// `Statement::query_map` reading every row as a season row, column by
/// column.
#[verifier::external_body]
pub fn sql_season_rows(connection: &rusqlite::Connection, sql: &str, params: &Vec<SqlParam>) -> Result<
    Vec<SeasonRow>,
    rusqlite::Error,
> {
    let mut statement = connection.prepare(sql)?;
    let rows = statement.query_map(rusqlite::params_from_iter(sql_values(params)), |r| Ok(SeasonRow {
        id: r.get(0)?, external_id: r.get(1)?, season_number: r.get(2)?, name: r.get(3)?,
        overview: r.get(4)?, air_date: r.get(5)?, poster_path: r.get(6)?, episode_count: r.get(7)?,
        is_present_in_source: r.get(8)?,
    }))?;
    rows.collect()
}

/// `Connection::query_row` reading column 0 of the one row as an integer;
/// no row is an error.
#[verifier::external_body]
pub fn sql_i64_value(connection: &rusqlite::Connection, sql: &str, params: &Vec<SqlParam>) -> Result<
    i64,
    rusqlite::Error,
> {
    connection.query_row(sql, rusqlite::params_from_iter(sql_values(params)), |row| row.get(0))
}

/// `Connection::query_row` reading column 0 of the one row as text; no row
/// is an error.
#[verifier::external_body]
pub fn sql_text_value(connection: &rusqlite::Connection, sql: &str, params: &Vec<SqlParam>) -> Result<
    String,
    rusqlite::Error,
> {
    connection.query_row(sql, rusqlite::params_from_iter(sql_values(params)), |row| row.get(0))
}

/// `Connection::query_row` reading columns 0 and 1 as integers, with no
/// row read as nothing.
#[verifier::external_body]
pub fn sql_optional_i64_pair(
    connection: &rusqlite::Connection,
    sql: &str,
    params: &Vec<SqlParam>,
) -> Result<Option<(i64, i64)>, rusqlite::Error> {
    connection.query_row(
        sql,
        rusqlite::params_from_iter(sql_values(params)),
        |row| Ok((row.get(0)?, row.get(1)?)),
    ).optional()
}

/// `Connection::query_row` reading column 0 as an integer and column 1 as
/// text, with no row read as nothing.
#[verifier::external_body]
pub fn sql_optional_i64_text(
    connection: &rusqlite::Connection,
    sql: &str,
    params: &Vec<SqlParam>,
) -> Result<Option<(i64, String)>, rusqlite::Error> {
    connection.query_row(
        sql,
        rusqlite::params_from_iter(sql_values(params)),
        |row| Ok((row.get(0)?, row.get(1)?)),
    ).optional()
}

/// The prefix of every database error of the media library.
pub const DATABASE_FAILURE: &'static str = "Media Library database operation failed: ";

impl MediaError {
    /// A database error carrying rusqlite's description of the failure.
    pub fn from_sql(error: &rusqlite::Error) -> (r: MediaError)
        ensures
            r.kind == MediaErrorKind::Database,
            r.message@.len() >= DATABASE_FAILURE@.len(),
            r.message@.take(DATABASE_FAILURE@.len() as int) == DATABASE_FAILURE@,
    {
        let mut m = chars_of(DATABASE_FAILURE);
        let ghost prefix = m@;
        let text = sql_error_text(error);
        extend_str(&mut m, text.as_str());
        assert(m@.take(prefix.len() as int) =~= prefix);
        MediaError::new(MediaErrorKind::Database, string_of(&m))
    }
}

/// The error for a result row whose columns are not of the expected kinds.
pub fn row_shape_error() -> (r: MediaError)
    ensures
        is_database_error(r),
        r.message@ == DATABASE_FAILURE@ + "a row did not have the expected columns."@,
{
    let mut m = chars_of(DATABASE_FAILURE);
    let ghost prefix = m@;
    extend_str(&mut m, "a row did not have the expected columns.");
    assert(m@.take(prefix.len() as int) =~= prefix);
    MediaError::new(MediaErrorKind::Database, string_of(&m))
}

/// Whether an error is a database error of the media library.
/// What a lookup of at most one row gives: the row it found, `missing`
/// when it found none, or the database error.
pub fn lookup_outcome<T>(found: Result<Option<T>, rusqlite::Error>, missing: MediaError) -> (r: Result<
    T,
    MediaError,
>)
    ensures
        found matches Ok(Some(v)) ==> r == Ok::<T, MediaError>(v),
        found matches Ok(None) ==> r == Err::<T, MediaError>(missing),
        found is Err ==> (r matches Err(e) && is_database_error(e)),
{
    match found {
        Ok(Some(v)) => Ok(v),
        Ok(None) => Err(missing),
        Err(e) => Err(MediaError::from_sql(&e)),
    }
}

pub open spec fn is_database_error(e: MediaError) -> bool {
    e.kind == MediaErrorKind::Database && e.message@.len() >= DATABASE_FAILURE@.len()
        && e.message@.take(DATABASE_FAILURE@.len() as int) == DATABASE_FAILURE@
}

} // verus!
