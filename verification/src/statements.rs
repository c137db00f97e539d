//! Statements as values: the text of a statement and its parameters, so
//! that what a function hands to the database is fixed by a verified
//! builder with an exact contract.
use crate::database::{is_database_error, sql_execute, SqlParam};
use crate::media::MediaError;
use crate::media_progress::check;
use crate::media_query::{int_arg, param_view, params_view, text_arg};
use crate::text::{chars_of, string_of};
use vstd::prelude::*;

verus! {

/// A statement and its parameters.
pub struct SqlStatement {
    pub sql: &'static str,
    pub params: Vec<SqlParam>,
}

/// The text of a statement and its parameters as values.
pub type StatementView = (Seq<char>, Seq<(u8, i64, Seq<char>)>);

pub open spec fn statement_view(s: SqlStatement) -> StatementView {
    (s.sql@, params_view(s.params@))
}

pub open spec fn statement_views(v: Seq<SqlStatement>) -> Seq<StatementView> {
    v.map_values(|s: SqlStatement| statement_view(s))
}

pub open spec fn null_arg() -> (u8, i64, Seq<char>) {
    (2, 0, seq![])
}

/// An optional integer as a parameter: the integer, or null.
pub open spec fn opt_int_arg(v: Option<i64>) -> (u8, i64, Seq<char>) {
    match v {
        Some(i) => int_arg(i),
        None => null_arg(),
    }
}

/// A flag as a parameter: 1 or 0.
pub open spec fn flag_arg(b: bool) -> (u8, i64, Seq<char>) {
    int_arg(if b { 1 } else { 0 })
}

pub fn int_param(i: i64) -> (r: SqlParam)
    ensures
        param_view(r) == int_arg(i),
{
    SqlParam::Integer(i)
}

pub fn text_param(s: &str) -> (r: SqlParam)
    ensures
        param_view(r) == text_arg(s@),
{
    SqlParam::Text(string_of(&chars_of(s)))
}

pub fn owned_text_param(s: String) -> (r: SqlParam)
    ensures
        param_view(r) == text_arg(s@),
{
    SqlParam::Text(s)
}

pub fn opt_int_param(v: Option<i64>) -> (r: SqlParam)
    ensures
        param_view(r) == opt_int_arg(v),
{
    match v {
        Some(i) => SqlParam::Integer(i),
        None => SqlParam::Null,
    }
}

/// An optional text as a parameter: the text, or null.
pub open spec fn opt_text_arg(v: Option<String>) -> (u8, i64, Seq<char>) {
    match v {
        Some(t) => text_arg(t@),
        None => null_arg(),
    }
}

pub fn opt_text_param(v: &Option<String>) -> (r: SqlParam)
    ensures
        param_view(r) == opt_text_arg(*v),
{
    match v {
        Some(t) => SqlParam::Text(string_of(&chars_of(t.as_str()))),
        None => SqlParam::Null,
    }
}

pub fn flag_param(b: bool) -> (r: SqlParam)
    ensures
        param_view(r) == flag_arg(b),
{
    SqlParam::Integer(if b { 1 } else { 0 })
}

pub fn null_param() -> (r: SqlParam)
    ensures
        param_view(r) == null_arg(),
{
    SqlParam::Null
}

/// A statement with no parameters.
pub fn plain_statement(sql: &'static str) -> (r: SqlStatement)
    ensures
        statement_view(r) == (sql@, Seq::<(u8, i64, Seq<char>)>::empty()),
{
    let r = SqlStatement { sql, params: Vec::new() };
    assert(params_view(r.params@) =~= Seq::<(u8, i64, Seq<char>)>::empty());
    r
}

/// A statement whose one parameter is an integer.
pub fn int_statement(sql: &'static str, a: i64) -> (r: SqlStatement)
    ensures
        statement_view(r) == (sql@, seq![int_arg(a)]),
{
    let mut p: Vec<SqlParam> = Vec::new();
    p.push(int_param(a));
    let r = SqlStatement { sql, params: p };
    assert(params_view(r.params@) =~= seq![int_arg(a)]);
    r
}

/// A statement whose parameters are two integers.
pub fn int_pair_statement(sql: &'static str, a: i64, b: i64) -> (r: SqlStatement)
    ensures
        statement_view(r) == (sql@, seq![int_arg(a), int_arg(b)]),
{
    let mut p: Vec<SqlParam> = Vec::new();
    p.push(int_param(a));
    p.push(int_param(b));
    let r = SqlStatement { sql, params: p };
    assert(params_view(r.params@) =~= seq![int_arg(a), int_arg(b)]);
    r
}

/// A statement whose one parameter is a text.
pub fn text_statement(sql: &'static str, t: String) -> (r: SqlStatement)
    ensures
        statement_view(r) == (sql@, seq![text_arg(t@)]),
{
    let mut p: Vec<SqlParam> = Vec::new();
    p.push(owned_text_param(t));
    let r = SqlStatement { sql, params: p };
    assert(params_view(r.params@) =~= seq![text_arg(t@)]);
    r
}

/// A statement whose parameters are two texts.
pub fn text_pair_statement(sql: &'static str, a: String, b: String) -> (r: SqlStatement)
    ensures
        statement_view(r) == (sql@, seq![text_arg(a@), text_arg(b@)]),
{
    let mut p: Vec<SqlParam> = Vec::new();
    p.push(owned_text_param(a));
    p.push(owned_text_param(b));
    let r = SqlStatement { sql, params: p };
    assert(params_view(r.params@) =~= seq![text_arg(a@), text_arg(b@)]);
    r
}

/// The queue position given to the row read at `index`: one more than
/// its index (a list never holds `i64::MAX` rows, so the last branch is
/// never taken).
pub open spec fn queue_position_at(index: int) -> i64 {
    if index < 0x7fff_ffff_ffff_fffe {
        (index + 1) as i64
    } else {
        i64::MAX
    }
}

/// The statements that give the rows, in the order read, the positions
/// 1, 2, ...: each takes a row id and its position.
pub open spec fn renumbering(sql: Seq<char>, ids: Seq<i64>) -> Seq<StatementView> {
    Seq::new(ids.len(), |i: int| (sql, seq![int_arg(ids[i]), int_arg(queue_position_at(i))]))
}

pub fn renumber_statements(sql: &'static str, ids: &Vec<i64>) -> (r: Vec<SqlStatement>)
    ensures
        statement_views(r@) == renumbering(sql@, ids@),
{
    let mut out: Vec<SqlStatement> = Vec::new();
    let mut index: usize = 0;
    while index < ids.len()
        invariant
            index <= ids@.len(),
            statement_views(out@) == renumbering(sql@, ids@).take(index as int),
        decreases ids@.len() - index,
    {
        let position: i64 = if (index as u64) < 0x7fff_ffff_ffff_fffe {
            index as i64 + 1
        } else {
            i64::MAX
        };
        assert(position == queue_position_at(index as int));
        let ghost before = out@;
        let st = int_pair_statement(sql, ids[index], position);
        out.push(st);
        assert(statement_views(out@) =~= statement_views(before).push(statement_view(st)));
        assert(renumbering(sql@, ids@).take(index + 1) =~= renumbering(sql@, ids@).take(
            index as int,
        ).push(renumbering(sql@, ids@)[index as int]));
        index = index + 1;
    }
    assert(renumbering(sql@, ids@).take(ids@.len() as int) =~= renumbering(sql@, ids@));
    out
}

/// Renumbering keeps a queue unique and dense: the rows read keep their
/// order and get the positions 1 to n, each once.
pub proof fn renumbering_is_dense_and_unique(sql: Seq<char>, ids: Seq<i64>)
    requires
        ids.len() < 0x7fff_ffff_ffff_fffe,
    ensures
        renumbering(sql, ids).len() == ids.len(),
        forall|i: int|
            0 <= i < ids.len() ==> #[trigger] renumbering(sql, ids)[i] == (
                sql,
                seq![int_arg(ids[i]), int_arg((i + 1) as i64)],
            ),
        forall|i: int, j: int|
            0 <= i < j < ids.len() ==> queue_position_at(i) < queue_position_at(j),
        forall|i: int| 0 <= i < ids.len() ==> 1 <= #[trigger] queue_position_at(i) <= ids.len(),
{
}

/// The statements that swap a queued row with its neighbour: the row is
/// parked at -1, the neighbour takes the row's position, the row takes
/// the target position.
pub open spec fn swap_views(
    park_sql: Seq<char>,
    position_sql: Seq<char>,
    move_sql: Seq<char>,
    row_id: i64,
    neighbour_id: i64,
    current: i64,
    target: i64,
) -> Seq<StatementView> {
    seq![
        (park_sql, seq![int_arg(row_id)]),
        (position_sql, seq![int_arg(neighbour_id), int_arg(current)]),
        (move_sql, seq![int_arg(row_id), int_arg(target)]),
    ]
}

pub fn swap_statements(
    park_sql: &'static str,
    position_sql: &'static str,
    move_sql: &'static str,
    row_id: i64,
    neighbour_id: i64,
    current: i64,
    target: i64,
) -> (r: Vec<SqlStatement>)
    ensures
        statement_views(r@) == swap_views(
            park_sql@,
            position_sql@,
            move_sql@,
            row_id,
            neighbour_id,
            current,
            target,
        ),
{
    let mut out: Vec<SqlStatement> = Vec::new();
    out.push(int_statement(park_sql, row_id));
    out.push(int_pair_statement(position_sql, neighbour_id, current));
    out.push(int_pair_statement(move_sql, row_id, target));
    assert(statement_views(out@) =~= swap_views(
        park_sql@,
        position_sql@,
        move_sql@,
        row_id,
        neighbour_id,
        current,
        target,
    ));
    out
}

/// Runs statements in order, stopping at the first that fails.
pub fn run_statements(connection: &rusqlite::Connection, statements: &Vec<SqlStatement>) -> (r:
    Result<(), MediaError>)
    ensures
        r matches Err(e) ==> is_database_error(e),
{
    let mut i: usize = 0;
    while i < statements.len()
        invariant
            i <= statements@.len(),
        decreases statements@.len() - i,
    {
        match run_statement(connection, &statements[i]) {
            Ok(_) => {},
            Err(e) => return Err(e),
        }
        i = i + 1;
    }
    Ok(())
}

/// Runs a statement and gives the number of rows it changed.
pub fn run_statement(connection: &rusqlite::Connection, statement: &SqlStatement) -> (r: Result<
    usize,
    MediaError,
>)
    ensures
        r matches Err(e) ==> is_database_error(e),
{
    check(sql_execute(connection, statement.sql, &statement.params))
}

/// The statements of several steps, one step after another.
pub open spec fn concat_views(parts: Seq<Seq<StatementView>>) -> Seq<StatementView>
    decreases parts.len(),
{
    if parts.len() == 0 {
        seq![]
    } else {
        concat_views(parts.drop_last()) + parts.last()
    }
}

/// The statements of the first `n` steps of `step`.
pub open spec fn steps(n: nat, step: spec_fn(int) -> Seq<StatementView>) -> Seq<StatementView> {
    concat_views(Seq::new(n, step))
}

/// One more step adds its statements at the end.
pub proof fn lemma_steps_push(n: nat, step: spec_fn(int) -> Seq<StatementView>)
    ensures
        steps(n + 1, step) == steps(n, step) + step(n as int),
{
    assert(Seq::new(n + 1, step).drop_last() =~= Seq::new(n, step));
}

/// Runs a statement and records it in `log`, the statements handed to
/// SQLite so far, in order.
pub fn run_logged(connection: &rusqlite::Connection, statement: &SqlStatement, log: &mut Ghost<Seq<StatementView>>) -> (r:
    Result<usize, MediaError>)
    ensures
        final(log)@ == old(log)@.push(statement_view(*statement)),
        r matches Err(e) ==> is_database_error(e),
{
    let r = run_statement(connection, statement);
    *log = Ghost(log@.push(statement_view(*statement)));
    r
}

/// Runs statements in order, stopping at the first that fails, and records
/// each one run in `log`.
pub fn run_statements_logged(
    connection: &rusqlite::Connection,
    statements: &Vec<SqlStatement>,
    log: &mut Ghost<Seq<StatementView>>,
) -> (r: Result<(), MediaError>)
    ensures
        r matches Err(e) ==> is_database_error(e),
        r is Ok ==> final(log)@ == old(log)@ + statement_views(statements@),
{
    let ghost start = log@;
    let mut i: usize = 0;
    while i < statements.len()
        invariant
            i <= statements@.len(),
            log@ == start + statement_views(statements@).take(i as int),
        decreases statements@.len() - i,
    {
        match run_logged(connection, &statements[i], log) {
            Ok(_) => {},
            Err(e) => return Err(e),
        }
        assert(statement_views(statements@).take(i as int + 1) =~= statement_views(statements@).take(
            i as int,
        ).push(statement_view(statements@[i as int])));
        i = i + 1;
    }
    assert(statement_views(statements@).take(statements@.len() as int) =~= statement_views(statements@));
    Ok(())
}

/// Renumbers a queue 1, 2, ... in its current order: reads the queued ids
/// (`read_sql`), parks them (`park_sql`), and gives each its place
/// (`renumbering` with `position_sql`); the result is the ids read.
pub fn renumber_queue(
    connection: &rusqlite::Connection,
    read_sql: &'static str,
    park_sql: &'static str,
    position_sql: &'static str,
    log: &mut Ghost<Seq<StatementView>>,
) -> (r: Result<Ghost<Seq<i64>>, MediaError>)
    ensures
        r matches Err(e) ==> is_database_error(e),
        r matches Ok(ids) ==> final(log)@ == old(log)@ + seq![(park_sql@, seq![])] + renumbering(
            position_sql@,
            ids@,
        ),
{
    let none: Vec<SqlParam> = Vec::new();
    let ids = match crate::database::sql_i64_rows(connection, read_sql, &none) {
        Ok(ids) => ids,
        Err(e) => return Err(MediaError::from_sql(&e)),
    };
    let ghost start = log@;
    let park = plain_statement(park_sql);
    match run_logged(connection, &park, log) {
        Ok(_) => {},
        Err(e) => return Err(e),
    }
    let ghost parked = log@;
    let plan = renumber_statements(position_sql, &ids);
    match run_statements_logged(connection, &plan, log) {
        Ok(()) => {},
        Err(e) => return Err(e),
    }
    assert(parked == start.push((park_sql@, Seq::<(u8, i64, Seq<char>)>::empty())));
    assert(log@ =~= start + seq![(park_sql@, Seq::<(u8, i64, Seq<char>)>::empty())] + renumbering(position_sql@, ids@));
    Ok(Ghost(ids@))
}

} // verus!
