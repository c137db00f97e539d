//! Books the reader enters by hand: checking the input, the import it
//! describes, and storing it as a new book (or finding the book already
//! there by ISBN).
use crate::book_import::{BookImport, NormalizedBookSeries};
use crate::book_library::{
    insert_edition_statement, is_manual_edition, manual_edition_problem, normalized_manual_edition, optional_url,
    positive_or_absent,
};
use crate::book_service::BookRepository;
use crate::book_store::{
    author_step, edition_step, series_step, insert_authors, insert_series, insert_work_statement, series_name_statement, FIND_SERIES_SQL, INSERT_SERIES_SQL,
};
use crate::media_repository::database_or_not_found;
use crate::books::{
    optional_isbn, BookFormat, BookOwnershipStatus, ManualBookEditionInput, NormalizedBookEdition,
};
use crate::database::{is_database_error, sql_begin, sql_commit, sql_i64_value, sql_in, sql_last_insert_rowid, SqlParam};
use crate::media::{MediaError, MediaErrorKind, MediaLibraryStatus};
use crate::media_query::{int_arg, param_view, params_view, text_arg};
use crate::merge::string_views;
use crate::statements::{
    flag_arg, flag_param, int_param, int_statement, null_arg, null_param, opt_int_arg, opt_int_param, owned_text_param,
    run_logged, run_statement, statement_view, steps, text_param, SqlStatement, StatementView,
};
use crate::text::{chars_of, extend_chars, i64_to_decimal, signed_decimal, string_of, trim, trim_str};
use vstd::prelude::*;

verus! {

/// A book entered by hand. (Its personal rating is a real number and is
/// not part of this input.)
#[derive(Clone, Debug)]
pub struct CreateManualBookInput {
    pub title: String,
    pub subtitle: String,
    pub authors: Vec<String>,
    pub description: String,
    pub first_publish_year: Option<i64>,
    pub isbn_10: String,
    pub isbn_13: String,
    pub publisher: String,
    pub published_date: String,
    pub page_count: Option<i64>,
    pub audio_duration_minutes: Option<i64>,
    pub language: String,
    pub cover_url: String,
    pub preferred_format: BookFormat,
    pub library_status: MediaLibraryStatus,
    pub notes: String,
    pub is_favorite: bool,
    pub priority: i64,
    pub ownership_status: BookOwnershipStatus,
    pub is_read_next: bool,
    pub series_name: String,
    pub series_position: String,
}

/// The first problem of a hand-entered book, in the order it is checked:
/// title, page count, audio duration, ISBN-10, ISBN-13, cover URL.
pub open spec fn manual_book_problem(input: CreateManualBookInput) -> Option<Seq<char>> {
    if trim(input.title@).len() == 0 {
        Some("A book title is required."@)
    } else if !positive_or_absent(input.page_count) {
        Some("Page count must be positive."@)
    } else if !positive_or_absent(input.audio_duration_minutes) {
        Some("Audiobook duration must be positive."@)
    } else {
        match optional_isbn(input.isbn_10@, 10) {
            Err(m) => Some(m),
            Ok(_) => match optional_isbn(input.isbn_13@, 13) {
                Err(m) => Some(m),
                Ok(_) => match optional_url(input.cover_url@) {
                    Err(m) => Some(m),
                    Ok(_) => None,
                },
            },
        }
    }
}

/// The edition fields of a hand-entered book.
pub open spec fn edition_input_of(input: CreateManualBookInput, e: ManualBookEditionInput) -> bool {
    &&& e.title@ == input.title@
    &&& e.subtitle@ == input.subtitle@
    &&& e.format == input.preferred_format
    &&& e.isbn_10@ == input.isbn_10@
    &&& e.isbn_13@ == input.isbn_13@
    &&& e.publisher@ == input.publisher@
    &&& e.published_date@ == input.published_date@
    &&& e.language@ == input.language@
    &&& e.page_count == input.page_count
    &&& e.audio_duration_minutes == input.audio_duration_minutes
    &&& e.cover_url@ == input.cover_url@
}

/// The import a hand-entered book describes: its trimmed texts, its
/// authors as given, one edition, no sources or links, and its series
/// (trimmed, from the `manual` source) when it names one.
pub open spec fn is_manual_book_import(input: CreateManualBookInput, import: BookImport) -> bool {
    &&& import.title@ == trim(input.title@)
    &&& import.subtitle@ == trim(input.subtitle@)
    &&& import.description@ == trim(input.description@)
    &&& string_views(import.authors@) == string_views(input.authors@)
    &&& import.first_publish_year == input.first_publish_year
    &&& import.subjects@.len() == 0
    &&& Ok::<Seq<char>, Seq<char>>(import.canonical_cover_url@) == optional_url(input.cover_url@)
    &&& import.community_rating_count is None
    &&& import.editions@.len() == 1
    &&& exists|e: ManualBookEditionInput|
        #[trigger] edition_input_of(input, e) && is_manual_edition(e, import.editions@[0])
    &&& import.sources@.len() == 0
    &&& import.links@.len() == 0
    &&& (trim(input.series_name@).len() == 0 ==> import.series@.len() == 0)
    &&& (trim(input.series_name@).len() > 0 ==> import.series@.len() == 1
        && import.series@[0].name@ == trim(input.series_name@) && import.series@[0].position_text@
        == trim(input.series_position@) && import.series@[0].source_key@ == "manual"@)
}

fn copy_strings(v: &Vec<String>) -> (r: Vec<String>)
    ensures
        string_views(r@) == string_views(v@),
{
    let mut out: Vec<String> = Vec::new();
    let mut i: usize = 0;
    while i < v.len()
        invariant
            i <= v@.len(),
            out@.len() == i,
            forall|j: int| 0 <= j < i ==> (#[trigger] out@[j])@ == v@[j]@,
        decreases v@.len() - i,
    {
        out.push(string_of(&chars_of(v[i].as_str())));
        i = i + 1;
    }
    assert(string_views(out@) =~= string_views(v@));
    out
}

/// Checks a hand-entered book and gives the import it describes; the
/// first problem is refused as a validation error.
pub fn manual_book_import(input: &CreateManualBookInput) -> (r: Result<BookImport, MediaError>)
    ensures
        r is Err <==> manual_book_problem(*input) is Some,
        r matches Err(e) ==> e.kind == MediaErrorKind::Validation && Some(e.message@)
            == manual_book_problem(*input),
        r matches Ok(import) ==> is_manual_book_import(*input, import),
{
    if trim_str(input.title.as_str()).as_str().unicode_len() == 0 {
        return Err(MediaError::validation("A book title is required."));
    }
    match input.page_count {
        Some(n) => if n <= 0 {
            return Err(MediaError::validation("Page count must be positive."));
        },
        None => {},
    }
    match input.audio_duration_minutes {
        Some(n) => if n <= 0 {
            return Err(MediaError::validation("Audiobook duration must be positive."));
        },
        None => {},
    }
    let edition_input = ManualBookEditionInput {
        title: string_of(&chars_of(input.title.as_str())),
        subtitle: string_of(&chars_of(input.subtitle.as_str())),
        format: input.preferred_format,
        isbn_10: string_of(&chars_of(input.isbn_10.as_str())),
        isbn_13: string_of(&chars_of(input.isbn_13.as_str())),
        publisher: string_of(&chars_of(input.publisher.as_str())),
        published_date: string_of(&chars_of(input.published_date.as_str())),
        language: string_of(&chars_of(input.language.as_str())),
        page_count: input.page_count,
        audio_duration_minutes: input.audio_duration_minutes,
        cover_url: string_of(&chars_of(input.cover_url.as_str())),
    };
    assert(edition_input_of(*input, edition_input));
    let edition = match normalized_manual_edition(&edition_input) {
        Ok(e) => e,
        Err(e) => return Err(e),
    };
    let cover = string_of(&chars_of(edition.cover_url.as_str()));
    let mut editions: Vec<NormalizedBookEdition> = Vec::new();
    editions.push(edition);
    let mut series: Vec<NormalizedBookSeries> = Vec::new();
    let name = trim_str(input.series_name.as_str());
    if name.as_str().unicode_len() > 0 {
        series.push(NormalizedBookSeries {
            name,
            position_text: trim_str(input.series_position.as_str()),
            source_key: String::from_str("manual"),
        });
    }
    let import = BookImport {
        title: trim_str(input.title.as_str()),
        subtitle: trim_str(input.subtitle.as_str()),
        description: trim_str(input.description.as_str()),
        authors: copy_strings(&input.authors),
        first_publish_year: input.first_publish_year,
        subjects: Vec::new(),
        canonical_cover_url: cover,
        community_rating_count: None,
        editions,
        sources: Vec::new(),
        links: Vec::new(),
        series,
    };
    proof {
        reveal_strlit("manual");
        assert(import.subjects@.len() == 0);
    }
    Ok(import)
}

pub const INSERT_MANUAL_TITLE_SQL: &'static str = "
            INSERT INTO obj_media_title (
                source_key, external_media_type, content_type, title, original_title,
                overview, release_date, poster_path
            ) VALUES ('manual', 'book', 'BOOK', ?1, ?1, ?2, ?3, ?4)
            ";

/// The title row of a hand-entered book: title, description, the year as
/// text (blank when unknown) and the cover.
pub open spec fn manual_title_args(import: BookImport) -> Seq<(u8, i64, Seq<char>)> {
    seq![
        text_arg(import.title@),
        text_arg(import.description@),
        text_arg(match import.first_publish_year {
            Some(y) => signed_decimal(y as int),
            None => seq![],
        }),
        text_arg(import.canonical_cover_url@),
    ]
}

pub fn manual_title_statement(import: &BookImport) -> (r: SqlStatement)
    ensures
        statement_view(r) == (INSERT_MANUAL_TITLE_SQL@, manual_title_args(*import)),
{
    proof {
        reveal_strlit("");
    }
    let year = match import.first_publish_year {
        Some(y) => owned_text_param(string_of(&i64_to_decimal(y))),
        None => text_param(""),
    };
    assert(param_view(year) == manual_title_args(*import)[2]);
    let mut p: Vec<SqlParam> = Vec::new();
    p.push(text_param(import.title.as_str()));
    p.push(text_param(import.description.as_str()));
    p.push(year);
    p.push(text_param(import.canonical_cover_url.as_str()));
    let r = SqlStatement { sql: INSERT_MANUAL_TITLE_SQL, params: p };
    assert(params_view(r.params@) =~= manual_title_args(*import));
    r
}

pub const INSERT_MANUAL_ENTRY_SQL: &'static str = "
            INSERT INTO obj_media_library_entry (
                media_title_id, library_status, is_favorite, personal_rating, notes, priority,
                started_at, completed_at
            ) VALUES (
                ?1, ?2, ?3, ?4, ?5, ?6,
                CASE WHEN ?2 IN ('WATCHING','COMPLETED') THEN datetime('now','localtime') ELSE '' END,
                CASE WHEN ?2 = 'COMPLETED' THEN datetime('now','localtime') ELSE '' END
            )
            ";

/// The entry of a hand-entered book: its status, favourite flag, no
/// rating, trimmed notes and priority.
pub fn manual_entry_statement(title_id: i64, input: &CreateManualBookInput) -> (r: SqlStatement)
    ensures
        statement_view(r) == (
            INSERT_MANUAL_ENTRY_SQL@,
            seq![
                int_arg(title_id),
                text_arg(input.library_status.label()),
                flag_arg(input.is_favorite),
                null_arg(),
                text_arg(trim(input.notes@)),
                int_arg(input.priority),
            ],
        ),
{
    let mut p: Vec<SqlParam> = Vec::new();
    p.push(int_param(title_id));
    p.push(text_param(input.library_status.as_str()));
    p.push(flag_param(input.is_favorite));
    p.push(null_param());
    p.push(owned_text_param(trim_str(input.notes.as_str())));
    p.push(int_param(input.priority));
    let r = SqlStatement { sql: INSERT_MANUAL_ENTRY_SQL, params: p };
    assert(params_view(r.params@) =~= seq![
        int_arg(title_id),
        text_arg(input.library_status.label()),
        flag_arg(input.is_favorite),
        null_arg(),
        text_arg(trim(input.notes@)),
        int_arg(input.priority),
    ]);
    r
}

pub const INSERT_MANUAL_READER_SQL: &'static str = "
            INSERT INTO obj_media_book_reader_state (
                media_library_entry_id, preferred_edition_id, ownership_status,
                preferred_format, reading_queue_position
            ) VALUES (
                ?1, ?2, ?3, ?4,
                CASE WHEN ?5 = 1 THEN (
                    SELECT COALESCE(MAX(reading_queue_position), 0) + 1
                    FROM obj_media_book_reader_state
                ) ELSE NULL END
            )
            ";

/// The reader state of a hand-entered book: its edition, ownership,
/// format, and whether it goes to the end of Read Next.
pub fn manual_reader_statement(entry_id: i64, edition_id: i64, input: &CreateManualBookInput) -> (r: SqlStatement)
    ensures
        statement_view(r) == (
            INSERT_MANUAL_READER_SQL@,
            seq![
                int_arg(entry_id),
                int_arg(edition_id),
                text_arg(input.ownership_status.label()),
                text_arg(input.preferred_format.label()),
                flag_arg(input.is_read_next),
            ],
        ),
{
    let mut p: Vec<SqlParam> = Vec::new();
    p.push(int_param(entry_id));
    p.push(int_param(edition_id));
    p.push(text_param(input.ownership_status.as_str()));
    p.push(text_param(input.preferred_format.as_str()));
    p.push(flag_param(input.is_read_next));
    let r = SqlStatement { sql: INSERT_MANUAL_READER_SQL, params: p };
    assert(params_view(r.params@) =~= seq![
        int_arg(entry_id),
        int_arg(edition_id),
        text_arg(input.ownership_status.label()),
        text_arg(input.preferred_format.label()),
        flag_arg(input.is_read_next),
    ]);
    r
}

pub const INSERT_MANUAL_SOURCE_SQL: &'static str = "
            INSERT INTO obj_media_book_source_record (
                media_title_id, edition_id, source_key, entity_type, external_id,
                refreshed_at, last_refresh_status
            ) VALUES (?1, ?2, 'manual', 'WORK', ?3, datetime('now','localtime'), 'SUCCESS')
            ";

/// The manual source row of a hand-entered book, named `local-` and the
/// title id.
pub fn manual_source_statement(title_id: i64, edition_id: i64) -> (r: SqlStatement)
    ensures
        statement_view(r) == (
            INSERT_MANUAL_SOURCE_SQL@,
            seq![int_arg(title_id), int_arg(edition_id), text_arg("local-"@ + signed_decimal(title_id as int))],
        ),
{
    let mut name = chars_of("local-");
    extend_chars(&mut name, &i64_to_decimal(title_id));
    let mut p: Vec<SqlParam> = Vec::new();
    p.push(int_param(title_id));
    p.push(int_param(edition_id));
    p.push(owned_text_param(string_of(&name)));
    let r = SqlStatement { sql: INSERT_MANUAL_SOURCE_SQL, params: p };
    assert(params_view(r.params@) =~= seq![
        int_arg(title_id),
        int_arg(edition_id),
        text_arg("local-"@ + signed_decimal(title_id as int)),
    ]);
    r
}

/// What storing a hand-entered book read back from the database.
pub struct StoredManualBook {
    pub title_id: i64,
    pub entry_id: i64,
    pub edition_id: i64,
    pub authors_chosen: Ghost<Seq<(bool, i64)>>,
    pub series_ids: Ghost<Seq<i64>>,
}

/// Every statement that storing a hand-entered book hands to SQLite, in
/// order: the title, the entry, the work, the edition, the reader state,
/// each author, each series and the manual source row.
pub open spec fn manual_book_plan(import: BookImport, input: CreateManualBookInput, stored: StoredManualBook) -> Seq<
    StatementView,
> {
    let t = stored.title_id;
    seq![
        (INSERT_MANUAL_TITLE_SQL@, manual_title_args(import)),
        (
            INSERT_MANUAL_ENTRY_SQL@,
            seq![
                int_arg(t),
                text_arg(input.library_status.label()),
                flag_arg(input.is_favorite),
                null_arg(),
                text_arg(trim(input.notes@)),
                int_arg(input.priority),
            ],
        ),
        (crate::book_store::INSERT_WORK_SQL@, crate::book_store::work_args(t, import)),
    ] + edition_step(t, import.editions@[0]) + seq![
        (
            INSERT_MANUAL_READER_SQL@,
            seq![
                int_arg(stored.entry_id),
                int_arg(stored.edition_id),
                text_arg(input.ownership_status.label()),
                text_arg(input.preferred_format.label()),
                flag_arg(input.is_read_next),
            ],
        ),
    ] + steps(import.authors@.len(), |k: int| author_step(t, import.authors@[k]@, k, stored.authors_chosen@[k]))
        + steps(import.series@.len(), |k: int| series_step(t, import.series@[k], k, stored.series_ids@[k])) + seq![
        (
            INSERT_MANUAL_SOURCE_SQL@,
            seq![int_arg(t), int_arg(stored.edition_id), text_arg("local-"@ + signed_decimal(t as int))],
        ),
    ]
}

/// Stores a hand-entered book and records in `log` exactly the statements
/// of `manual_book_plan`.
#[verifier::spinoff_prover]
#[verifier::rlimit(60)]
fn store_manual_book(
    inner: &rusqlite::Connection,
    import: &BookImport,
    input: &CreateManualBookInput,
    log: &mut Ghost<Seq<StatementView>>,
) -> (r: Result<StoredManualBook, MediaError>)
    requires
        import.editions@.len() == 1,
    ensures
        r matches Err(e) ==> is_database_error(e),
        r matches Ok(stored) ==> final(log)@ == old(log)@ + manual_book_plan(*import, *input, stored),
{
    let ghost start = log@;
    match run_logged(inner, &manual_title_statement(import), log) {
        Ok(_) => {},
        Err(e) => return Err(e),
    }
    let title_id = sql_last_insert_rowid(inner);
    match run_logged(inner, &manual_entry_statement(title_id, input), log) {
        Ok(_) => {},
        Err(e) => return Err(e),
    }
    let entry_id = sql_last_insert_rowid(inner);
    match run_logged(inner, &insert_work_statement(title_id, import), log) {
        Ok(_) => {},
        Err(e) => return Err(e),
    }
    match run_logged(inner, &insert_edition_statement(title_id, &import.editions[0]), log) {
        Ok(_) => {},
        Err(e) => return Err(e),
    }
    let edition_id = sql_last_insert_rowid(inner);
    match run_logged(inner, &manual_reader_statement(entry_id, edition_id, input), log) {
        Ok(_) => {},
        Err(e) => return Err(e),
    }
    let authors_chosen = match insert_authors(inner, title_id, &import.authors, log) {
        Ok(a) => a,
        Err(e) => return Err(e),
    };
    let series_ids = match insert_series(inner, title_id, import, log) {
        Ok(ids) => ids,
        Err(e) => return Err(e),
    };
    match run_logged(inner, &manual_source_statement(title_id, edition_id), log) {
        Ok(_) => {},
        Err(e) => return Err(e),
    }
    let stored = StoredManualBook { title_id, entry_id, edition_id, authors_chosen, series_ids };
    assert(log@ =~= start + manual_book_plan(*import, *input, stored));
    Ok(stored)
}

impl<'a> BookRepository<'a> {
    /// Adds a hand-entered book and gives its entry id: the input is
    /// checked (`manual_book_import`); a book already in the library with
    /// the edition's ISBN is returned instead; otherwise the title, entry,
    /// work, edition, reader state, authors, series and manual source are
    /// stored in one transaction.
    pub fn create_manual(&self, input: &CreateManualBookInput) -> (r: Result<i64, MediaError>)
        ensures
            manual_book_problem(*input) matches Some(m) ==> (r matches Err(e) && e.kind
                == MediaErrorKind::Validation && e.message@ == m),
            r matches Err(e) ==> manual_book_problem(*input) is Some || is_database_error(e),
    {
        let import = match manual_book_import(input) {
            Ok(i) => i,
            Err(e) => return Err(e),
        };
        self.add_manual_import(&import, input)
    }

    fn add_manual_import(&self, import: &BookImport, input: &CreateManualBookInput) -> (r: Result<i64, MediaError>)
        requires
            is_manual_book_import(*input, *import),
            manual_book_problem(*input) is None,
        ensures
            r matches Err(e) ==> is_database_error(e),
    {
        let edition = &import.editions[0];
        let transaction = match sql_begin(self.database.connection()) {
            Ok(t) => t,
            Err(e) => return Err(MediaError::from_sql(&e)),
        };
        let inner = sql_in(&transaction);
        let mut log: Ghost<Seq<StatementView>> = Ghost(Seq::empty());
        let found = match self.find_existing_candidate("", "", edition.isbn_10.as_str(), edition.isbn_13.as_str()) {
            Ok(f) => f,
            Err(e) => return Err(e),
        };
        if let Some(entry_id) = found {
            return match sql_commit(transaction) {
                Ok(()) => Ok(entry_id),
                Err(e) => Err(MediaError::from_sql(&e)),
            };
        }
        let stored = match store_manual_book(inner, import, input, &mut log) {
            Ok(stored) => stored,
            Err(e) => return Err(e),
        };
        let entry_id = stored.entry_id;
        match sql_commit(transaction) {
            Ok(()) => Ok(entry_id),
            Err(e) => Err(MediaError::from_sql(&e)),
        }
    }
}

// ------------------------------------------------------------ reader changes

pub const RESET_READER_SQL: &'static str = "
            UPDATE obj_media_book_reader_state SET progress_value = 0,
                current_chapter = '', last_progress_at = '',
                updated_at = datetime('now','localtime')
            WHERE media_library_entry_id = ?1
            ";

pub const RESET_STATUS_SQL: &'static str = "
            UPDATE obj_media_library_entry SET
                library_status = CASE
                    WHEN library_status IN ('ON_HOLD','DROPPED') THEN library_status ELSE 'PLANNED' END,
                started_at = CASE
                    WHEN library_status IN ('ON_HOLD','DROPPED') THEN started_at ELSE '' END,
                completed_at = CASE
                    WHEN library_status IN ('ON_HOLD','DROPPED') THEN completed_at ELSE '' END,
                updated_at = datetime('now','localtime')
            WHERE id = ?1
            ";

/// A series the reader sets on a book. (Its sort value is read from the
/// position text, as for provider series.)
#[derive(Clone, Debug)]
pub struct BookSeriesOverrideInput {
    pub name: String,
    pub position_text: String,
    pub is_primary: bool,
}

pub const CLEAR_PRIMARY_SERIES_SQL: &'static str = "UPDATE obj_media_book_series_member SET is_primary=0 WHERE media_title_id=?1";

pub const SET_SERIES_OVERRIDE_SQL: &'static str = "
            INSERT INTO obj_media_book_series_member (series_id, media_title_id, position_text, position_sort, is_primary, source_key, is_user_override)
            VALUES (?1,?2,?3,?4,?5,'manual',1)
            ON CONFLICT(series_id,media_title_id,source_key) DO UPDATE SET
                position_text=excluded.position_text, position_sort=excluded.position_sort,
                is_primary=excluded.is_primary, is_user_override=1, updated_at=datetime('now','localtime')
            ";

/// The reader's membership of a title in a series: the trimmed position
/// as text and as sort value, and whether it is the primary series.
pub fn series_override_statement(series_id: i64, title_id: i64, input: &BookSeriesOverrideInput) -> (r:
    SqlStatement)
    ensures
        statement_view(r) == (
            SET_SERIES_OVERRIDE_SQL@,
            seq![
                int_arg(series_id),
                int_arg(title_id),
                text_arg(trim(input.position_text@)),
                crate::book_store::position_sort_arg(trim(input.position_text@)),
                flag_arg(input.is_primary),
            ],
        ),
{
    let position = trim_str(input.position_text.as_str());
    let sort = if position.as_str().unicode_len() == 0 {
        null_param()
    } else {
        text_param(position.as_str())
    };
    let mut p: Vec<SqlParam> = Vec::new();
    p.push(int_param(series_id));
    p.push(int_param(title_id));
    p.push(owned_text_param(position));
    p.push(sort);
    p.push(flag_param(input.is_primary));
    let r = SqlStatement { sql: SET_SERIES_OVERRIDE_SQL, params: p };
    assert(params_view(r.params@) =~= seq![
        int_arg(series_id),
        int_arg(title_id),
        text_arg(trim(input.position_text@)),
        crate::book_store::position_sort_arg(trim(input.position_text@)),
        flag_arg(input.is_primary),
    ]);
    r
}

impl<'a> BookRepository<'a> {
    /// Starts a book over: its position, chapter and progress time are
    /// cleared, and it goes back to planned (without start or completion
    /// times) unless it is on hold or dropped.
    pub fn reset_progress(&self, entry_id: i64) -> (r: Result<(), MediaError>)
        ensures
            r matches Err(e) ==> is_database_error(e),
    {
        let transaction = match sql_begin(self.database.connection()) {
            Ok(t) => t,
            Err(e) => return Err(MediaError::from_sql(&e)),
        };
        let inner = sql_in(&transaction);
        match run_statement(inner, &int_statement(RESET_READER_SQL, entry_id)) {
            Ok(_) => {},
            Err(e) => return Err(e),
        }
        match run_statement(inner, &int_statement(RESET_STATUS_SQL, entry_id)) {
            Ok(_) => {},
            Err(e) => return Err(e),
        }
        match sql_commit(transaction) {
            Ok(()) => Ok(()),
            Err(e) => Err(MediaError::from_sql(&e)),
        }
    }

    /// Sets the reader's own series on a book: the series (by trimmed
    /// name) is created if new; a primary series first takes the title's
    /// other memberships off primary; then the membership is stored
    /// (`series_override_statement`). A blank name is refused.
    pub fn set_series_override(&self, entry_id: i64, input: &BookSeriesOverrideInput) -> (r: Result<
        (),
        MediaError,
    >)
        ensures
            trim(input.name@).len() == 0 ==> (r matches Err(e) && e.kind == MediaErrorKind::Validation
                && e.message@ == "A series name is required."@),
            r matches Err(e) ==> trim(input.name@).len() == 0 || database_or_not_found(
                e,
                "Book library entry was not found."@,
            ),
    {
        if trim_str(input.name.as_str()).as_str().unicode_len() == 0 {
            return Err(MediaError::validation("A series name is required."));
        }
        let transaction = match sql_begin(self.database.connection()) {
            Ok(t) => t,
            Err(e) => return Err(MediaError::from_sql(&e)),
        };
        let inner = sql_in(&transaction);
        let title_id = match Self::book_title_id(inner, entry_id) {
            Ok(id) => id,
            Err(e) => return Err(e),
        };
        match run_statement(inner, &series_name_statement(INSERT_SERIES_SQL, input.name.as_str())) {
            Ok(_) => {},
            Err(e) => return Err(e),
        }
        let find = series_name_statement(FIND_SERIES_SQL, input.name.as_str());
        let series_id = match sql_i64_value(inner, find.sql, &find.params) {
            Ok(id) => id,
            Err(e) => return Err(MediaError::from_sql(&e)),
        };
        if input.is_primary {
            match run_statement(inner, &int_statement(CLEAR_PRIMARY_SERIES_SQL, title_id)) {
                Ok(_) => {},
                Err(e) => return Err(e),
            }
        }
        match run_statement(inner, &series_override_statement(series_id, title_id, input)) {
            Ok(_) => {},
            Err(e) => return Err(e),
        }
        match sql_commit(transaction) {
            Ok(()) => Ok(()),
            Err(e) => Err(MediaError::from_sql(&e)),
        }
    }
}

impl<'a> crate::book_service::BookLibraryService<'a> {
    /// Adds a hand-entered book (`BookRepository::create_manual`).
    pub fn create_manual(&self, input: &CreateManualBookInput) -> (r: Result<i64, MediaError>)
        ensures
            manual_book_problem(*input) matches Some(m) ==> (r matches Err(e) && e.kind
                == MediaErrorKind::Validation && e.message@ == m),
            r matches Err(e) ==> manual_book_problem(*input) is Some || is_database_error(e),
    {
        self.repository.create_manual(input)
    }

    /// Sets the reader's own series on a book (`BookRepository::set_series_override`).
    pub fn set_series_override(&self, entry_id: i64, input: &BookSeriesOverrideInput) -> (r: Result<
        (),
        MediaError,
    >)
        ensures
            trim(input.name@).len() == 0 ==> (r matches Err(e) && e.kind == MediaErrorKind::Validation
                && e.message@ == "A series name is required."@),
            r matches Err(e) ==> trim(input.name@).len() == 0 || database_or_not_found(
                e,
                "Book library entry was not found."@,
            ),
    {
        self.repository.set_series_override(entry_id, input)
    }
}

impl<'a> crate::book_service::BookProgressService<'a> {
    /// Starts a book over (`BookRepository::reset_progress`).
    pub fn reset(&self, entry_id: i64) -> (r: Result<(), MediaError>)
        ensures
            r matches Err(e) ==> is_database_error(e),
    {
        self.repository.reset_progress(entry_id)
    }
}

} // verus!
