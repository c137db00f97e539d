//! Changes to a book in the library: manual editions, the reader's
//! ownership and format, the read-next queue, links and series overrides.
//! Each change runs its statements, in one transaction where there are
//! several; the caller reloads the book afterwards.
use crate::book_service::{BookLibraryService, BookRepository};
use crate::books::{
    is_book_link_type, normalize_optional_isbn, optional_isbn, validate_book_link,
    validate_optional_url, BookFormat, BookLinkInput, ManualBookEditionInput,
    NormalizedBookEdition, UpdateBookReaderStateInput,
};
use crate::database::{
    is_database_error, lookup_outcome, sql_begin, sql_commit, sql_execute, sql_i64_rows, sql_i64_value, sql_in,
    sql_last_insert_rowid, sql_optional_i64, SqlParam,
};
use crate::media::{http_url_error, validate_http_url, MediaError, MediaErrorKind};
use crate::media_progress::{check, one, queue_step, two};
use crate::media_repository::database_or_not_found;
use crate::text::{
    chars_eq_str, chars_of, extend_chars, i64_to_decimal, signed_decimal, string_of, trim,
    trim_chars, trim_str,
    upper_ascii, upper_ascii_chars,
};
use crate::media_query::{int_arg, params_view, text_arg};
use crate::statements::{
    flag_arg, flag_param, int_pair_statement, int_param, int_statement, opt_int_arg, opt_int_param,
    plain_statement, renumber_queue, renumber_statements, renumbering, run_logged, run_statement, run_statements, statement_view, swap_statements, text_param, StatementView,
    SqlStatement,
};
use vstd::prelude::*;

verus! {

// ------------------------------------------------------------ manual editions

/// A count that is absent or positive.
pub open spec fn positive_or_absent(v: Option<i64>) -> bool {
    match v {
        Some(x) => x > 0,
        None => true,
    }
}

/// An optional URL: empty when blank, else the trimmed http(s) URL or the
/// reason it is refused.
pub open spec fn optional_url(value: Seq<char>) -> Result<Seq<char>, Seq<char>> {
    if trim(value).len() == 0 {
        Ok(seq![])
    } else {
        match http_url_error(value) {
            Some(m) => Err(m),
            None => Ok(trim(value)),
        }
    }
}

/// The first problem of a manual edition, in the order the fields are
/// checked: title, counts, ISBN-10, ISBN-13, cover URL.
pub open spec fn manual_edition_problem(input: ManualBookEditionInput) -> Option<Seq<char>> {
    if trim(input.title@).len() == 0 {
        Some("An edition title is required."@)
    } else if !positive_or_absent(input.page_count) || !positive_or_absent(
        input.audio_duration_minutes,
    ) {
        Some("Page count and audio duration must be positive."@)
    } else {
        match optional_isbn(input.isbn_10@, 10) {
            Err(m) => Some(m),
            Ok(_) => match optional_isbn(input.isbn_13@, 13) {
                Err(m) => Some(m),
                Ok(_) => match optional_url(input.cover_url@) {
                    Err(m) => Some(m),
                    Ok(_) => None,
                },
            },
        }
    }
}

/// The edition a manual input describes, once it has no problem.
pub open spec fn is_manual_edition(input: ManualBookEditionInput, e: NormalizedBookEdition) -> bool {
    &&& e.title@ == trim(input.title@)
    &&& e.subtitle@ == trim(input.subtitle@)
    &&& e.format == input.format
    &&& Ok::<Seq<char>, Seq<char>>(e.isbn_10@) == optional_isbn(input.isbn_10@, 10)
    &&& Ok::<Seq<char>, Seq<char>>(e.isbn_13@) == optional_isbn(input.isbn_13@, 13)
    &&& e.publisher@ == trim(input.publisher@)
    &&& e.published_date@ == trim(input.published_date@)
    &&& e.language@ == trim(input.language@)
    &&& e.page_count == input.page_count
    &&& e.audio_duration_minutes == input.audio_duration_minutes
    &&& Ok::<Seq<char>, Seq<char>>(e.cover_url@) == optional_url(input.cover_url@)
    &&& e.is_ebook == (input.format == BookFormat::Ebook)
    &&& e.access_viewability@.len() == 0
}

fn is_positive_or_absent(v: Option<i64>) -> (r: bool)
    ensures
        r == positive_or_absent(v),
{
    match v {
        Some(x) => x > 0,
        None => true,
    }
}

/// Checks a manual edition and trims its text fields; the ISBNs are
/// normalised and the cover URL checked.
pub fn normalized_manual_edition(input: &ManualBookEditionInput) -> (r: Result<
    NormalizedBookEdition,
    MediaError,
>)
    ensures
        r is Err <==> manual_edition_problem(*input) is Some,
        r matches Err(e) ==> e.kind == MediaErrorKind::Validation && Some(e.message@)
            == manual_edition_problem(*input),
        r matches Ok(e) ==> is_manual_edition(*input, e),
{
    let title = trim_str(input.title.as_str());
    if title.as_str().unicode_len() == 0 {
        return Err(MediaError::validation("An edition title is required."));
    }
    if !is_positive_or_absent(input.page_count) || !is_positive_or_absent(
        input.audio_duration_minutes,
    ) {
        return Err(MediaError::validation("Page count and audio duration must be positive."));
    }
    let isbn_10 = match normalize_optional_isbn(input.isbn_10.as_str(), 10) {
        Ok(s) => s,
        Err(e) => return Err(e),
    };
    let isbn_13 = match normalize_optional_isbn(input.isbn_13.as_str(), 13) {
        Ok(s) => s,
        Err(e) => return Err(e),
    };
    let cover_url = match validate_optional_url(input.cover_url.as_str()) {
        Ok(s) => s,
        Err(e) => return Err(e),
    };
    proof {
        if trim(input.cover_url@).len() == 0 {
            assert(cover_url@ =~= Seq::<char>::empty());
        }
    }
    Ok(
        NormalizedBookEdition {
            title,
            subtitle: trim_str(input.subtitle.as_str()),
            format: input.format,
            isbn_10,
            isbn_13,
            publisher: trim_str(input.publisher.as_str()),
            published_date: trim_str(input.published_date.as_str()),
            language: trim_str(input.language.as_str()),
            page_count: input.page_count,
            audio_duration_minutes: input.audio_duration_minutes,
            cover_url,
            is_ebook: input.format == BookFormat::Ebook,
            access_viewability: String::new(),
        },
    )
}

// ------------------------------------------------------------ statements

fn opt_param(v: Option<i64>) -> (r: SqlParam)
    ensures
        r == match v {
            Some(x) => SqlParam::Integer(x),
            None => SqlParam::Null,
        },
{
    match v {
        Some(x) => SqlParam::Integer(x),
        None => SqlParam::Null,
    }
}

fn text(s: &str) -> (r: SqlParam)
    ensures
        r matches SqlParam::Text(t) && t@ == s@,
{
    SqlParam::Text(string_of(&chars_of(s)))
}

fn flag(b: bool) -> (r: SqlParam)
    ensures
        r == SqlParam::Integer(if b { 1 } else { 0 }),
{
    SqlParam::Integer(if b { 1 } else { 0 })
}

/// A one-step move in the read-next queue: the position aimed at, when the
/// direction is known and the position is representable.
pub fn read_next_target(current: i64, direction: &str) -> (r: Result<Option<i64>, MediaError>)
    ensures
        queue_step(direction@) is None <==> r is Err,
        r matches Err(e) ==> e.kind == MediaErrorKind::Validation && e.message@
            == "Read Next direction must be UP or DOWN."@,
        r matches Ok(t) ==> match queue_step(direction@) {
            Some(step) => if i64::MIN <= current + step <= i64::MAX {
                t == Some((current + step) as i64)
            } else {
                t is None
            },
            None => false,
        },
{
    let d = upper_ascii_chars(&trim_chars(&chars_of(direction)));
    if chars_eq_str(&d, "UP") {
        Ok(current.checked_sub(1))
    } else if chars_eq_str(&d, "DOWN") {
        Ok(current.checked_add(1))
    } else {
        Err(MediaError::validation("Read Next direction must be UP or DOWN."))
    }
}

pub const QUEUED_BOOKS_SQL: &'static str = "SELECT media_library_entry_id FROM obj_media_book_reader_state WHERE reading_queue_position IS NOT NULL ORDER BY reading_queue_position,media_library_entry_id";

pub const PARK_READING_QUEUE_SQL: &'static str = "UPDATE obj_media_book_reader_state SET reading_queue_position=-media_library_entry_id WHERE reading_queue_position IS NOT NULL";

pub const READING_POSITION_SQL: &'static str = "UPDATE obj_media_book_reader_state SET reading_queue_position=?2 WHERE media_library_entry_id=?1";

pub const LEAVE_READ_NEXT_SQL: &'static str = "UPDATE obj_media_book_reader_state SET reading_queue_position = NULL WHERE media_library_entry_id = ?1";

pub const CLEAR_PREFERRED_LINKS_SQL: &'static str = "UPDATE obj_media_book_link SET is_preferred=0 WHERE media_title_id=?1 AND is_user_owned=1";

pub const INSERT_USER_LINK_SQL: &'static str = "INSERT INTO obj_media_book_link (media_title_id, edition_id, source_key, link_type, url, region_code, is_user_owned, is_preferred) VALUES (?1,?2,'manual',?3,?4,?5,1,?6)";

pub const PREFER_USER_LINK_SQL: &'static str = "UPDATE obj_media_book_link SET is_preferred=1 WHERE id=?1 AND media_title_id=?2 AND is_user_owned=1";

/// Checks that an edition, when one is named, belongs to the title.
fn validate_edition_ownership(
    connection: &rusqlite::Connection,
    title_id: i64,
    edition_id: Option<i64>,
) -> (r: Result<(), MediaError>)
    ensures
        edition_id is None ==> r is Ok,
        r matches Err(e) ==> is_database_error(e) || (e.kind == MediaErrorKind::Validation
            && e.message@ == "The selected edition does not belong to this book."@),
{
    if let Some(edition_id) = edition_id {
        let valid = match sql_i64_value(
            connection,
            "SELECT EXISTS(SELECT 1 FROM obj_media_book_edition WHERE id=?1 AND media_title_id=?2)",
            &two(edition_id, title_id),
        ) {
            Ok(v) => v != 0,
            Err(e) => return Err(MediaError::from_sql(&e)),
        };
        if !valid {
            return Err(MediaError::validation("The selected edition does not belong to this book."));
        }
    }
    Ok(())
}

/// The statement parameters of a user link: title, edition, upper-cased
/// type, checked URL, trimmed upper-cased region, preferred flag.
fn link_params(title_id: i64, input: &BookLinkInput, url: String) -> (r: Vec<SqlParam>)
    ensures
        r@.len() == 6,
        r@[0] == SqlParam::Integer(title_id),
        r@[1] == match input.edition_id {
            Some(x) => SqlParam::Integer(x),
            None => SqlParam::Null,
        },
        r@[2] matches SqlParam::Text(t) && t@ == upper_ascii(input.link_type@),
        r@[3] == SqlParam::Text(url),
        r@[4] matches SqlParam::Text(t) && t@ == upper_ascii(trim(input.region_code@)),
        r@[5] == SqlParam::Integer(if input.is_preferred { 1 } else { 0 }),
{
    let mut params: Vec<SqlParam> = Vec::new();
    params.push(SqlParam::Integer(title_id));
    params.push(opt_param(input.edition_id));
    params.push(SqlParam::Text(string_of(&upper_ascii_chars(&chars_of(input.link_type.as_str())))));
    params.push(SqlParam::Text(url));
    params.push(
        SqlParam::Text(string_of(&upper_ascii_chars(&trim_chars(&chars_of(input.region_code.as_str()))))),
    );
    params.push(flag(input.is_preferred));
    params
}

/// The stored fields of an edition, from its title to its e-book flag.
pub open spec fn edition_field_args(e: NormalizedBookEdition) -> Seq<(u8, i64, Seq<char>)> {
    seq![
        text_arg(e.title@),
        text_arg(e.subtitle@),
        text_arg(e.format.label()),
        text_arg(e.isbn_10@),
        text_arg(e.isbn_13@),
        text_arg(e.publisher@),
        text_arg(e.published_date@),
        text_arg(e.language@),
        opt_int_arg(e.page_count),
        opt_int_arg(e.audio_duration_minutes),
        text_arg(e.cover_url@),
        flag_arg(e.is_ebook),
    ]
}

fn edition_fields(edition: &NormalizedBookEdition) -> (r: Vec<SqlParam>)
    ensures
        params_view(r@) == edition_field_args(*edition),
{
    let mut params: Vec<SqlParam> = Vec::new();
    params.push(text_param(edition.title.as_str()));
    params.push(text_param(edition.subtitle.as_str()));
    params.push(text_param(edition.format.as_str()));
    params.push(text_param(edition.isbn_10.as_str()));
    params.push(text_param(edition.isbn_13.as_str()));
    params.push(text_param(edition.publisher.as_str()));
    params.push(text_param(edition.published_date.as_str()));
    params.push(text_param(edition.language.as_str()));
    params.push(opt_int_param(edition.page_count));
    params.push(opt_int_param(edition.audio_duration_minutes));
    params.push(text_param(edition.cover_url.as_str()));
    params.push(flag_param(edition.is_ebook));
    assert(params_view(params@) =~= edition_field_args(*edition));
    params
}

pub const INSERT_EDITION_SQL: &'static str = "
        INSERT INTO obj_media_book_edition (
            media_title_id,title,subtitle,format,isbn_10,isbn_13,publisher,published_date,
            language,page_count,audio_duration_minutes,cover_url,is_ebook,access_viewability,
            metadata_refreshed_at
        ) VALUES (?1,?2,?3,?4,?5,?6,?7,?8,?9,?10,?11,?12,?13,?14,datetime('now','localtime'))
        ";

/// A new edition row: the title it belongs to, the edition's stored
/// fields, and its access viewability.
pub fn insert_edition_statement(title_id: i64, edition: &NormalizedBookEdition) -> (r: SqlStatement)
    ensures
        statement_view(r) == (
            INSERT_EDITION_SQL@,
            seq![int_arg(title_id)] + edition_field_args(*edition) + seq![
                text_arg(edition.access_viewability@),
            ],
        ),
{
    let mut params: Vec<SqlParam> = Vec::new();
    params.push(int_param(title_id));
    let mut fields = edition_fields(edition);
    params.append(&mut fields);
    params.push(text_param(edition.access_viewability.as_str()));
    let r = SqlStatement { sql: INSERT_EDITION_SQL, params };
    assert(params_view(r.params@) =~= seq![int_arg(title_id)] + edition_field_args(*edition) + seq![
        text_arg(edition.access_viewability@),
    ]);
    r
}

/// Inserts an edition of a title (`insert_edition_statement`) and gives its id.
pub(crate) fn insert_edition(connection: &rusqlite::Connection, title_id: i64, edition: &NormalizedBookEdition) -> (r:
    Result<i64, MediaError>)
    ensures
        r matches Err(e) ==> is_database_error(e),
{
    match run_statement(connection, &insert_edition_statement(title_id, edition)) {
        Ok(_) => Ok(sql_last_insert_rowid(connection)),
        Err(e) => Err(e),
    }
}

/// The identity of a manual edition's source row: `local-edition-` and the
/// edition id.
pub open spec fn local_edition_id(edition_id: i64) -> Seq<char> {
    "local-edition-"@ + signed_decimal(edition_id as int)
}

pub fn local_edition_external_id(edition_id: i64) -> (r: String)
    ensures
        r@ == local_edition_id(edition_id),
{
    let mut v = chars_of("local-edition-");
    let d = i64_to_decimal(edition_id);
    extend_chars(&mut v, &d);
    string_of(&v)
}

/// Whether an EXISTS query found a row.
fn row_exists(connection: &rusqlite::Connection, sql: &str, params: &Vec<SqlParam>) -> (r: Result<
    bool,
    MediaError,
>)
    ensures
        r matches Err(e) ==> is_database_error(e),
{
    match sql_i64_value(connection, sql, params) {
        Ok(v) => Ok(v != 0),
        Err(e) => Err(MediaError::from_sql(&e)),
    }
}

/// The errors a book change can end in: the database, a missing book, or
/// one of the messages the change itself gives.
pub open spec fn book_change_error(e: MediaError) -> bool {
    database_or_not_found(e, "Book library entry was not found."@)
}

pub const UPDATE_READER_STATE_SQL: &'static str = "
            UPDATE obj_media_book_reader_state SET
                ownership_status = ?2,
                preferred_format = ?3,
                updated_at = datetime('now','localtime')
            WHERE media_library_entry_id = ?1
            ";

/// The reader state a book is saved with: its ownership and preferred
/// format, by their labels.
pub fn reader_state_statement(entry_id: i64, input: &UpdateBookReaderStateInput) -> (r: SqlStatement)
    ensures
        statement_view(r) == (
            UPDATE_READER_STATE_SQL@,
            seq![
                int_arg(entry_id),
                text_arg(input.ownership_status.label()),
                text_arg(input.preferred_format.label()),
            ],
        ),
{
    let mut p: Vec<SqlParam> = Vec::new();
    p.push(int_param(entry_id));
    p.push(text_param(input.ownership_status.as_str()));
    p.push(text_param(input.preferred_format.as_str()));
    let r = SqlStatement { sql: UPDATE_READER_STATE_SQL, params: p };
    assert(params_view(r.params@) =~= seq![
        int_arg(entry_id),
        text_arg(input.ownership_status.label()),
        text_arg(input.preferred_format.label()),
    ]);
    r
}

pub const SOURCE_FAILED_SQL: &'static str = "
            UPDATE obj_media_book_source_record SET last_refresh_status='FAILED',
                last_refresh_error=?3, updated_at=datetime('now','localtime')
            WHERE media_title_id=?1 AND source_key=?2
            ";

/// The statement that marks a title's rows from one source as failed,
/// with the error message.
pub fn source_failure_statement(title_id: i64, source_key: &str, message: &str) -> (r: SqlStatement)
    ensures
        statement_view(r) == (
            SOURCE_FAILED_SQL@,
            seq![int_arg(title_id), text_arg(source_key@), text_arg(message@)],
        ),
{
    let mut p: Vec<SqlParam> = Vec::new();
    p.push(int_param(title_id));
    p.push(text_param(source_key));
    p.push(text_param(message));
    let r = SqlStatement { sql: SOURCE_FAILED_SQL, params: p };
    assert(params_view(r.params@) =~= seq![int_arg(title_id), text_arg(source_key@), text_arg(message@)]);
    r
}

pub const READING_QUEUE_POSITION_SQL: &'static str = "SELECT reading_queue_position FROM obj_media_book_reader_state WHERE media_library_entry_id = ?1";

pub const BOOK_AT_POSITION_SQL: &'static str = "SELECT media_library_entry_id FROM obj_media_book_reader_state WHERE reading_queue_position = ?1";

pub const PARK_BOOK_SQL: &'static str = "UPDATE obj_media_book_reader_state SET reading_queue_position = -1 WHERE media_library_entry_id = ?1";

/// Takes a book out of Read Next and renumbers the rest: it is left
/// (`LEAVE_READ_NEXT_SQL`), the queue is parked and each queued book, in its
/// order, takes the next place from 1 (`renumbering`); the result is the
/// queued books read.
fn leave_read_next(inner: &rusqlite::Connection, entry_id: i64, log: &mut Ghost<Seq<StatementView>>) -> (r: Result<
    Ghost<Seq<i64>>,
    MediaError,
>)
    ensures
        r matches Err(e) ==> is_database_error(e),
        r matches Ok(ids) ==> final(log)@ == old(log)@ + seq![
            (LEAVE_READ_NEXT_SQL@, seq![int_arg(entry_id)]),
            (PARK_READING_QUEUE_SQL@, seq![]),
        ] + renumbering(READING_POSITION_SQL@, ids@),
{
    let ghost start = log@;
    match run_logged(inner, &int_statement(LEAVE_READ_NEXT_SQL, entry_id), log) {
        Ok(_) => {},
        Err(e) => return Err(e),
    }
    let ghost left = log@;
    let ids = match renumber_queue(inner, QUEUED_BOOKS_SQL, PARK_READING_QUEUE_SQL, READING_POSITION_SQL, log) {
        Ok(ids) => ids,
        Err(e) => return Err(e),
    };
    assert(log@ =~= start + seq![
        (LEAVE_READ_NEXT_SQL@, seq![int_arg(entry_id)]),
        (PARK_READING_QUEUE_SQL@, seq![]),
    ] + renumbering(READING_POSITION_SQL@, ids@));
    Ok(ids)
}

impl<'a> BookRepository<'a> {
    /// Records the reader's ownership and preferred format of a book.
    pub fn update_reader_state(&self, entry_id: i64, input: &UpdateBookReaderStateInput) -> (r:
        Result<(), MediaError>)
        ensures
            r matches Err(e) ==> book_change_error(e),
    {
        let statement = reader_state_statement(entry_id, input);
        let changed = match check(sql_execute(self.database.connection(), statement.sql, &statement.params)) {
            Ok(n) => n,
            Err(e) => return Err(e),
        };
        if changed == 0 {
            return Err(MediaError::not_found("Book library entry was not found."));
        }
        Ok(())
    }

    /// Puts a book at the end of the read-next queue unless it is queued
    /// already.
    pub fn add_to_read_next(&self, entry_id: i64) -> (r: Result<(), MediaError>)
        ensures
            r matches Err(e) ==> book_change_error(e),
    {
        let changed = match check(
            sql_execute(
                self.database.connection(),
                "
            UPDATE obj_media_book_reader_state SET
                reading_queue_position = COALESCE(reading_queue_position, (
                    SELECT COALESCE(MAX(reading_queue_position), 0) + 1
                    FROM obj_media_book_reader_state
                )), updated_at = datetime('now','localtime')
            WHERE media_library_entry_id = ?1
            ",
                &one(entry_id),
            ),
        ) {
            Ok(n) => n,
            Err(e) => return Err(e),
        };
        if changed == 0 {
            return Err(MediaError::not_found("Book library entry was not found."));
        }
        Ok(())
    }

    /// Takes a book out of the read-next queue (`LEAVE_READ_NEXT_SQL`) and
    /// closes the gap (`normalize_reading_queue`), in one transaction.
    pub fn remove_from_read_next(&self, entry_id: i64) -> (r: Result<(), MediaError>)
        ensures
            r matches Err(e) ==> is_database_error(e),
    {
        let transaction = match sql_begin(self.database.connection()) {
            Ok(t) => t,
            Err(e) => return Err(MediaError::from_sql(&e)),
        };
        let inner = sql_in(&transaction);
        let mut log: Ghost<Seq<StatementView>> = Ghost(Seq::empty());
        match leave_read_next(inner, entry_id, &mut log) {
            Ok(_) => {},
            Err(e) => return Err(e),
        }
        match sql_commit(transaction) {
            Ok(()) => Ok(()),
            Err(e) => Err(MediaError::from_sql(&e)),
        }
    }

    /// Swaps a queued book with its neighbour one place up or down
    /// (`swap_statements`: the book is parked, the neighbour takes its
    /// place, the book takes the neighbour's); at the top, or with no
    /// neighbour there, nothing moves.
    pub fn move_read_next(&self, entry_id: i64, direction: &str) -> (r: Result<(), MediaError>)
        ensures
            r matches Err(e) ==> is_database_error(e) || (e.kind == MediaErrorKind::Validation && (
            e.message@ == "This book is not in Read Next."@ || e.message@
                == "Read Next direction must be UP or DOWN."@)),
            queue_step(direction@) is None ==> r is Err,
    {
        let transaction = match sql_begin(self.database.connection()) {
            Ok(t) => t,
            Err(e) => return Err(MediaError::from_sql(&e)),
        };
        let inner = sql_in(&transaction);
        let read = int_statement(READING_QUEUE_POSITION_SQL, entry_id);
        let current = match lookup_outcome(
            sql_optional_i64(inner, read.sql, &read.params),
            MediaError::validation("This book is not in Read Next."),
        ) {
            Ok(v) => v,
            Err(e) => return Err(e),
        };
        let target = match read_next_target(current, direction) {
            Ok(t) => t,
            Err(e) => return Err(e),
        };
        if let Some(target) = target {
            if target > 0 {
                let find = int_statement(BOOK_AT_POSITION_SQL, target);
                let neighbour = match sql_optional_i64(inner, find.sql, &find.params) {
                    Ok(n) => n,
                    Err(e) => return Err(MediaError::from_sql(&e)),
                };
                if let Some(neighbour_id) = neighbour {
                    let swap = swap_statements(
                        PARK_BOOK_SQL,
                        READING_POSITION_SQL,
                        READING_POSITION_SQL,
                        entry_id,
                        neighbour_id,
                        current,
                        target,
                    );
                    match run_statements(inner, &swap) {
                        Ok(()) => {},
                        Err(e) => return Err(e),
                    }
                }
            }
        }
        match sql_commit(transaction) {
            Ok(()) => Ok(()),
            Err(e) => Err(MediaError::from_sql(&e)),
        }
    }

    /// Adds a user link to a book; a preferred link takes the place of the
    /// book's previous preferred user link (`CLEAR_PREFERRED_LINKS_SQL`).
    /// The link is checked first, then stored with `INSERT_USER_LINK_SQL`
    /// and `link_params` (its URL trimmed, its type and region upper-cased).
    pub fn create_link(&self, entry_id: i64, input: &BookLinkInput) -> (r: Result<(), MediaError>)
        ensures
            !(http_url_error(input.url@) is None && is_book_link_type(input.link_type@)) ==> (r matches Err(
                e,
            ) && e.kind == MediaErrorKind::Validation),
            r matches Err(e) ==> book_change_error(e) || e.kind == MediaErrorKind::Validation,
    {
        match validate_book_link(input) {
            Ok(()) => {},
            Err(e) => return Err(e),
        }
        let url = match validate_http_url(input.url.as_str()) {
            Ok(u) => u,
            Err(e) => return Err(e),
        };
        let transaction = match sql_begin(self.database.connection()) {
            Ok(t) => t,
            Err(e) => return Err(MediaError::from_sql(&e)),
        };
        let inner = sql_in(&transaction);
        let title_id = match Self::book_title_id(inner, entry_id) {
            Ok(id) => id,
            Err(e) => return Err(e),
        };
        match validate_edition_ownership(inner, title_id, input.edition_id) {
            Ok(()) => {},
            Err(e) => return Err(e),
        }
        if input.is_preferred {
            match run_statement(inner, &int_statement(CLEAR_PREFERRED_LINKS_SQL, title_id)) {
                Ok(_) => {},
                Err(e) => return Err(e),
            }
        }
        match run_statement(inner, &SqlStatement { sql: INSERT_USER_LINK_SQL, params: link_params(title_id, input, url) }) {
            Ok(_) => {},
            Err(e) => return Err(e),
        }
        match sql_commit(transaction) {
            Ok(()) => Ok(()),
            Err(e) => Err(MediaError::from_sql(&e)),
        }
    }

    /// Changes one of a book's user links; provider links are not touched.
    pub fn update_link(&self, entry_id: i64, link_id: i64, input: &BookLinkInput) -> (r: Result<
        (),
        MediaError,
    >)
        ensures
            !(http_url_error(input.url@) is None && is_book_link_type(input.link_type@)) ==> (r matches Err(
                e,
            ) && e.kind == MediaErrorKind::Validation),
            r matches Err(e) ==> book_change_error(e) || e.kind == MediaErrorKind::Validation
                || (e.kind == MediaErrorKind::NotFound && e.message@
                == "User-owned book link was not found."@),
    {
        match validate_book_link(input) {
            Ok(()) => {},
            Err(e) => return Err(e),
        }
        let url = match validate_http_url(input.url.as_str()) {
            Ok(u) => u,
            Err(e) => return Err(e),
        };
        let transaction = match sql_begin(self.database.connection()) {
            Ok(t) => t,
            Err(e) => return Err(MediaError::from_sql(&e)),
        };
        let inner = sql_in(&transaction);
        let title_id = match Self::book_title_id(inner, entry_id) {
            Ok(id) => id,
            Err(e) => return Err(e),
        };
        match validate_edition_ownership(inner, title_id, input.edition_id) {
            Ok(()) => {},
            Err(e) => return Err(e),
        }
        if input.is_preferred {
            match run_statement(inner, &int_statement(CLEAR_PREFERRED_LINKS_SQL, title_id)) {
                Ok(_) => {},
                Err(e) => return Err(e),
            }
        }
        let mut params = one(link_id);
        let mut rest = link_params(title_id, input, url);
        params.append(&mut rest);
        let changed = match check(
            sql_execute(
                inner,
                "UPDATE obj_media_book_link SET edition_id=?3, link_type=?4, url=?5, region_code=?6, is_preferred=?7, updated_at=datetime('now','localtime') WHERE id=?1 AND media_title_id=?2 AND is_user_owned=1",
                &params,
            ),
        ) {
            Ok(n) => n,
            Err(e) => return Err(e),
        };
        if changed == 0 {
            return Err(MediaError::not_found("User-owned book link was not found."));
        }
        match sql_commit(transaction) {
            Ok(()) => Ok(()),
            Err(e) => Err(MediaError::from_sql(&e)),
        }
    }

    /// Deletes one of a book's user links.
    pub fn delete_link(&self, entry_id: i64, link_id: i64) -> (r: Result<(), MediaError>)
        ensures
            r matches Err(e) ==> book_change_error(e) || database_or_not_found(
                e,
                "User-owned book link was not found."@,
            ),
    {
        let connection = self.database.connection();
        let title_id = match Self::book_title_id(connection, entry_id) {
            Ok(id) => id,
            Err(e) => return Err(e),
        };
        let changed = match check(
            sql_execute(
                connection,
                "DELETE FROM obj_media_book_link WHERE id=?1 AND media_title_id=?2 AND is_user_owned=1",
                &two(link_id, title_id),
            ),
        ) {
            Ok(n) => n,
            Err(e) => return Err(e),
        };
        if changed == 0 {
            return Err(MediaError::not_found("User-owned book link was not found."));
        }
        Ok(())
    }

    /// Makes one of a book's user links its only preferred user link: clears
    /// the book's preferred user links (`CLEAR_PREFERRED_LINKS_SQL`), then
    /// marks this one (`PREFER_USER_LINK_SQL`; no such link is not found).
    pub fn set_preferred_link(&self, entry_id: i64, link_id: i64) -> (r: Result<(), MediaError>)
        ensures
            r matches Err(e) ==> book_change_error(e) || database_or_not_found(
                e,
                "User-owned book link was not found."@,
            ),
    {
        let transaction = match sql_begin(self.database.connection()) {
            Ok(t) => t,
            Err(e) => return Err(MediaError::from_sql(&e)),
        };
        let inner = sql_in(&transaction);
        let title_id = match Self::book_title_id(inner, entry_id) {
            Ok(id) => id,
            Err(e) => return Err(e),
        };
        match run_statement(inner, &int_statement(CLEAR_PREFERRED_LINKS_SQL, title_id)) {
            Ok(_) => {},
            Err(e) => return Err(e),
        }
        let changed = match run_statement(inner, &int_pair_statement(PREFER_USER_LINK_SQL, link_id, title_id)) {
            Ok(n) => n,
            Err(e) => return Err(e),
        };
        if changed == 0 {
            return Err(MediaError::not_found("User-owned book link was not found."));
        }
        match sql_commit(transaction) {
            Ok(()) => Ok(()),
            Err(e) => Err(MediaError::from_sql(&e)),
        }
    }

    /// Removes a user's series override from a book; other series rows
    /// stay.
    pub fn clear_series_override(&self, entry_id: i64, series_member_id: i64) -> (r: Result<
        (),
        MediaError,
    >)
        ensures
            r matches Err(e) ==> book_change_error(e),
    {
        let connection = self.database.connection();
        let title_id = match Self::book_title_id(connection, entry_id) {
            Ok(id) => id,
            Err(e) => return Err(e),
        };
        match check(
            sql_execute(
                connection,
                "DELETE FROM obj_media_book_series_member WHERE id=?1 AND media_title_id=?2 AND is_user_override=1",
                &two(series_member_id, title_id),
            ),
        ) {
            Ok(_) => Ok(()),
            Err(e) => Err(e),
        }
    }

    /// Records that refreshing a book from one provider failed, on that
    /// provider's source rows; other sources stay as they were.
    pub fn mark_provider_failure(&self, entry_id: i64, source_key: &str, message: &str) -> (r:
        Result<(), MediaError>)
        ensures
            r matches Err(e) ==> book_change_error(e),
    {
        let connection = self.database.connection();
        let title_id = match Self::book_title_id(connection, entry_id) {
            Ok(id) => id,
            Err(e) => return Err(e),
        };
        match run_statement(connection, &source_failure_statement(title_id, source_key, message)) {
            Ok(_) => Ok(()),
            Err(e) => Err(e),
        }
    }

    /// Adds a manual edition to a book, with a manual source row that
    /// names it; the input is checked first.
    pub fn create_edition(&self, entry_id: i64, input: &ManualBookEditionInput) -> (r: Result<
        (),
        MediaError,
    >)
        ensures
            manual_edition_problem(*input) matches Some(m) ==> (r matches Err(e) && e.kind
                == MediaErrorKind::Validation && e.message@ == m),
            r matches Err(e) ==> book_change_error(e) || (e.kind == MediaErrorKind::Validation
                && Some(e.message@) == manual_edition_problem(*input)),
    {
        let edition = match normalized_manual_edition(input) {
            Ok(e) => e,
            Err(e) => return Err(e),
        };
        let transaction = match sql_begin(self.database.connection()) {
            Ok(t) => t,
            Err(e) => return Err(MediaError::from_sql(&e)),
        };
        let inner = sql_in(&transaction);
        let title_id = match Self::book_title_id(inner, entry_id) {
            Ok(id) => id,
            Err(e) => return Err(e),
        };
        let edition_id = match insert_edition(inner, title_id, &edition) {
            Ok(id) => id,
            Err(e) => return Err(e),
        };
        let mut params = two(title_id, edition_id);
        params.push(SqlParam::Text(local_edition_external_id(edition_id)));
        match check(
            sql_execute(
                inner,
                "
            INSERT INTO obj_media_book_source_record (
                media_title_id,edition_id,source_key,entity_type,external_id,
                refreshed_at,last_refresh_status
            ) VALUES (?1,?2,'manual','EDITION',?3,datetime('now','localtime'),'SUCCESS')
            ",
                &params,
            ),
        ) {
            Ok(_) => {},
            Err(e) => return Err(e),
        }
        match sql_commit(transaction) {
            Ok(()) => Ok(()),
            Err(e) => Err(MediaError::from_sql(&e)),
        }
    }

    /// Changes a manual edition of a book; editions that came from a
    /// provider are refused.
    pub fn update_edition(&self, entry_id: i64, edition_id: i64, input: &ManualBookEditionInput) -> (r:
        Result<(), MediaError>)
        ensures
            manual_edition_problem(*input) matches Some(m) ==> (r matches Err(e) && e.kind
                == MediaErrorKind::Validation && e.message@ == m),
            r matches Err(e) ==> book_change_error(e) || database_or_not_found(
                e,
                "Book edition was not found."@,
            ) || (e.kind == MediaErrorKind::Validation && (Some(e.message@)
                == manual_edition_problem(*input) || e.message@
                == "Provider editions cannot be edited manually."@)),
    {
        let edition = match normalized_manual_edition(input) {
            Ok(e) => e,
            Err(e) => return Err(e),
        };
        let connection = self.database.connection();
        let title_id = match Self::book_title_id(connection, entry_id) {
            Ok(id) => id,
            Err(e) => return Err(e),
        };
        let provider_owned = match row_exists(
            connection,
            "SELECT EXISTS(
                SELECT 1 FROM obj_media_book_source_record
                WHERE edition_id=?1 AND source_key <> 'manual'
            )",
            &one(edition_id),
        ) {
            Ok(b) => b,
            Err(e) => return Err(e),
        };
        if provider_owned {
            return Err(MediaError::validation("Provider editions cannot be edited manually."));
        }
        let mut params = two(edition_id, title_id);
        let mut fields = edition_fields(&edition);
        params.append(&mut fields);
        let changed = match check(
            sql_execute(
                connection,
                "
            UPDATE obj_media_book_edition SET title=?3, subtitle=?4, format=?5,
                isbn_10=?6, isbn_13=?7, publisher=?8, published_date=?9, language=?10,
                page_count=?11, audio_duration_minutes=?12, cover_url=?13,
                is_ebook=?14, updated_at=datetime('now','localtime')
            WHERE id=?1 AND media_title_id=?2
            ",
                &params,
            ),
        ) {
            Ok(n) => n,
            Err(e) => return Err(e),
        };
        if changed == 0 {
            return Err(MediaError::not_found("Book edition was not found."));
        }
        Ok(())
    }

    /// Deletes a manual edition of a book; the preferred edition and
    /// provider editions are refused.
    pub fn delete_edition(&self, entry_id: i64, edition_id: i64) -> (r: Result<(), MediaError>)
        ensures
            r matches Err(e) ==> book_change_error(e) || database_or_not_found(
                e,
                "Book edition was not found."@,
            ) || (e.kind == MediaErrorKind::Validation && (e.message@
                == "Choose another preferred edition before deleting this edition."@ || e.message@
                == "Provider editions are retained for refresh history and cannot be deleted manually."@)),
    {
        let connection = self.database.connection();
        let title_id = match Self::book_title_id(connection, entry_id) {
            Ok(id) => id,
            Err(e) => return Err(e),
        };
        let preferred = match row_exists(
            connection,
            "SELECT EXISTS(SELECT 1 FROM obj_media_book_reader_state WHERE media_library_entry_id=?1 AND preferred_edition_id=?2)",
            &two(entry_id, edition_id),
        ) {
            Ok(b) => b,
            Err(e) => return Err(e),
        };
        if preferred {
            return Err(
                MediaError::validation(
                    "Choose another preferred edition before deleting this edition.",
                ),
            );
        }
        let provider_owned = match row_exists(
            connection,
            "SELECT EXISTS(SELECT 1 FROM obj_media_book_source_record WHERE edition_id=?1 AND source_key <> 'manual')",
            &one(edition_id),
        ) {
            Ok(b) => b,
            Err(e) => return Err(e),
        };
        if provider_owned {
            return Err(
                MediaError::validation(
                    "Provider editions are retained for refresh history and cannot be deleted manually.",
                ),
            );
        }
        let changed = match check(
            sql_execute(
                connection,
                "DELETE FROM obj_media_book_edition WHERE id=?1 AND media_title_id=?2",
                &two(edition_id, title_id),
            ),
        ) {
            Ok(n) => n,
            Err(e) => return Err(e),
        };
        if changed == 0 {
            return Err(MediaError::not_found("Book edition was not found."));
        }
        Ok(())
    }
}

/// The library service hands each change to the repository as it is.
impl<'a> BookLibraryService<'a> {
    pub fn update_reader_state(&self, entry_id: i64, input: &UpdateBookReaderStateInput) -> (r:
        Result<(), MediaError>)
        ensures
            r matches Err(e) ==> book_change_error(e),
    {
        self.repository.update_reader_state(entry_id, input)
    }

    pub fn add_to_read_next(&self, entry_id: i64) -> (r: Result<(), MediaError>)
        ensures
            r matches Err(e) ==> book_change_error(e),
    {
        self.repository.add_to_read_next(entry_id)
    }

    pub fn remove_from_read_next(&self, entry_id: i64) -> (r: Result<(), MediaError>)
        ensures
            r matches Err(e) ==> is_database_error(e),
    {
        self.repository.remove_from_read_next(entry_id)
    }

    pub fn move_read_next(&self, entry_id: i64, direction: &str) -> (r: Result<(), MediaError>)
        ensures
            r matches Err(e) ==> is_database_error(e) || (e.kind == MediaErrorKind::Validation && (
            e.message@ == "This book is not in Read Next."@ || e.message@
                == "Read Next direction must be UP or DOWN."@)),
            queue_step(direction@) is None ==> r is Err,
    {
        self.repository.move_read_next(entry_id, direction)
    }

    pub fn create_link(&self, entry_id: i64, input: &BookLinkInput) -> (r: Result<(), MediaError>)
        ensures
            !(http_url_error(input.url@) is None && is_book_link_type(input.link_type@)) ==> (r matches Err(
                e,
            ) && e.kind == MediaErrorKind::Validation),
            r matches Err(e) ==> book_change_error(e) || e.kind == MediaErrorKind::Validation,
    {
        self.repository.create_link(entry_id, input)
    }

    pub fn update_link(&self, entry_id: i64, link_id: i64, input: &BookLinkInput) -> (r: Result<
        (),
        MediaError,
    >)
        ensures
            !(http_url_error(input.url@) is None && is_book_link_type(input.link_type@)) ==> (r matches Err(
                e,
            ) && e.kind == MediaErrorKind::Validation),
            r matches Err(e) ==> book_change_error(e) || e.kind == MediaErrorKind::Validation
                || (e.kind == MediaErrorKind::NotFound && e.message@
                == "User-owned book link was not found."@),
    {
        self.repository.update_link(entry_id, link_id, input)
    }

    pub fn delete_link(&self, entry_id: i64, link_id: i64) -> (r: Result<(), MediaError>)
        ensures
            r matches Err(e) ==> book_change_error(e) || database_or_not_found(
                e,
                "User-owned book link was not found."@,
            ),
    {
        self.repository.delete_link(entry_id, link_id)
    }

    pub fn set_preferred_link(&self, entry_id: i64, link_id: i64) -> (r: Result<(), MediaError>)
        ensures
            r matches Err(e) ==> book_change_error(e) || database_or_not_found(
                e,
                "User-owned book link was not found."@,
            ),
    {
        self.repository.set_preferred_link(entry_id, link_id)
    }

    pub fn clear_series_override(&self, entry_id: i64, series_member_id: i64) -> (r: Result<
        (),
        MediaError,
    >)
        ensures
            r matches Err(e) ==> book_change_error(e),
    {
        self.repository.clear_series_override(entry_id, series_member_id)
    }

    pub fn create_edition(&self, entry_id: i64, input: &ManualBookEditionInput) -> (r: Result<
        (),
        MediaError,
    >)
        ensures
            manual_edition_problem(*input) matches Some(m) ==> (r matches Err(e) && e.kind
                == MediaErrorKind::Validation && e.message@ == m),
            r matches Err(e) ==> book_change_error(e) || (e.kind == MediaErrorKind::Validation
                && Some(e.message@) == manual_edition_problem(*input)),
    {
        self.repository.create_edition(entry_id, input)
    }

    pub fn update_edition(&self, entry_id: i64, edition_id: i64, input: &ManualBookEditionInput) -> (r:
        Result<(), MediaError>)
        ensures
            manual_edition_problem(*input) matches Some(m) ==> (r matches Err(e) && e.kind
                == MediaErrorKind::Validation && e.message@ == m),
            r matches Err(e) ==> book_change_error(e) || database_or_not_found(
                e,
                "Book edition was not found."@,
            ) || (e.kind == MediaErrorKind::Validation && (Some(e.message@)
                == manual_edition_problem(*input) || e.message@
                == "Provider editions cannot be edited manually."@)),
    {
        self.repository.update_edition(entry_id, edition_id, input)
    }

    pub fn delete_edition(&self, entry_id: i64, edition_id: i64) -> (r: Result<(), MediaError>)
        ensures
            r matches Err(e) ==> book_change_error(e) || database_or_not_found(
                e,
                "Book edition was not found."@,
            ) || (e.kind == MediaErrorKind::Validation && (e.message@
                == "Choose another preferred edition before deleting this edition."@ || e.message@
                == "Provider editions are retained for refresh history and cannot be deleted manually."@)),
    {
        self.repository.delete_edition(entry_id, edition_id)
    }
}

} // verus!
