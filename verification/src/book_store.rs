//! Adding a provider's book import to the library, or refreshing a stored
//! book from one: checking it, finding a book that is already there, and
//! storing the title, work, editions, reader state, source rows, provider
//! failures, authors, links and series in one transaction.
use crate::book_import::BookImport;
use crate::book_library::{insert_edition, insert_edition_statement, positive_or_absent};
use crate::book_service::BookRepository;
use crate::books::{
    is_book_link_type, normalize_isbn, spec_normalize_isbn, validate_link_type, BookFormat,
    BookProviderFailure, NormalizedBookEdition, NormalizedBookLink,
};
use crate::book_import::NormalizedBookSeries;
use crate::books::{provider_display_name, NormalizedBookSource};
use crate::database::{
    is_database_error, sql_begin, sql_commit, sql_i64_value, sql_in, sql_last_insert_rowid,
    sql_optional_i64, SqlParam,
};
use crate::media_query::{int_arg, param_view, params_view, text_arg};
use crate::statements::{
    int_statement, flag_arg, flag_param, int_param, null_arg, null_param, opt_int_arg, opt_int_param,
    owned_text_param, run_logged, run_statement, statement_view, steps, lemma_steps_push, text_param, SqlStatement,
    StatementView,
};
use crate::media::{http_url_error, validate_http_url, MediaError, MediaErrorKind, MediaLibraryStatus};
use crate::media_repository::database_or_not_found;
use crate::merge::string_views;
use crate::text::{
    chars_eq_str, chars_of, extend_chars, extend_str, i64_to_decimal, join, signed_decimal,
    squeeze_ws, squeeze_ws_chars, string_of, trim, trim_chars, upper_ascii, upper_ascii_chars,
};
use vstd::prelude::*;

verus! {

// ------------------------------------------------------------ checking

/// What is wrong with an edition of an import, if anything.
pub open spec fn edition_problem(e: NormalizedBookEdition) -> Option<Seq<char>> {
    if !positive_or_absent(e.page_count) || !positive_or_absent(e.audio_duration_minutes) {
        Some("Book page counts and audio durations must be positive."@)
    } else if e.isbn_10@.len() > 0 && spec_normalize_isbn(e.isbn_10@) is None {
        Some("A provider returned an invalid ISBN-10."@)
    } else if e.isbn_13@.len() > 0 && spec_normalize_isbn(e.isbn_13@) is None {
        Some("A provider returned an invalid ISBN-13."@)
    } else if trim(e.cover_url@).len() > 0 {
        http_url_error(e.cover_url@)
    } else {
        None
    }
}

/// The problem of the first edition that has one.
pub open spec fn editions_problem(v: Seq<NormalizedBookEdition>) -> Option<Seq<char>>
    decreases v.len(),
{
    if v.len() == 0 {
        None
    } else {
        match edition_problem(v[0]) {
            Some(m) => Some(m),
            None => editions_problem(v.drop_first()),
        }
    }
}

/// What is wrong with a link of an import: its URL, else its type.
pub open spec fn link_problem(l: NormalizedBookLink) -> Option<Seq<char>> {
    match http_url_error(l.url@) {
        Some(m) => Some(m),
        None => if is_book_link_type(l.link_type@) {
            None
        } else {
            Some("Book link type must be INFO, PREVIEW, READ, BORROW, BUY, or OTHER."@)
        },
    }
}

/// The problem of the first link that has one.
pub open spec fn links_problem(v: Seq<NormalizedBookLink>) -> Option<Seq<char>>
    decreases v.len(),
{
    if v.len() == 0 {
        None
    } else {
        match link_problem(v[0]) {
            Some(m) => Some(m),
            None => links_problem(v.drop_first()),
        }
    }
}

/// What is wrong with an import: a blank title, no edition, then the
/// first problem of its editions, then of its links.
pub open spec fn import_problem(import: BookImport) -> Option<Seq<char>> {
    if trim(import.title@).len() == 0 {
        Some("A normalized book title is required."@)
    } else if import.editions@.len() == 0 {
        Some("A book import requires at least one edition."@)
    } else {
        match editions_problem(import.editions@) {
            Some(m) => Some(m),
            None => links_problem(import.links@),
        }
    }
}

fn check_edition(e: &NormalizedBookEdition) -> (r: Result<(), MediaError>)
    ensures
        r is Err <==> edition_problem(*e) is Some,
        r matches Err(x) ==> x.kind == MediaErrorKind::Validation && Some(x.message@)
            == edition_problem(*e),
{
    let pages_ok = match e.page_count {
        Some(n) => n > 0,
        None => true,
    };
    let audio_ok = match e.audio_duration_minutes {
        Some(n) => n > 0,
        None => true,
    };
    if !pages_ok || !audio_ok {
        return Err(MediaError::validation("Book page counts and audio durations must be positive."));
    }
    if chars_of(e.isbn_10.as_str()).len() > 0 && normalize_isbn(e.isbn_10.as_str()).is_none() {
        return Err(MediaError::validation("A provider returned an invalid ISBN-10."));
    }
    if chars_of(e.isbn_13.as_str()).len() > 0 && normalize_isbn(e.isbn_13.as_str()).is_none() {
        return Err(MediaError::validation("A provider returned an invalid ISBN-13."));
    }
    if trim_chars(&chars_of(e.cover_url.as_str())).len() > 0 {
        match validate_http_url(e.cover_url.as_str()) {
            Ok(_) => {},
            Err(x) => return Err(x),
        }
    }
    Ok(())
}

fn check_link(l: &NormalizedBookLink) -> (r: Result<(), MediaError>)
    ensures
        r is Err <==> link_problem(*l) is Some,
        r matches Err(x) ==> x.kind == MediaErrorKind::Validation && Some(x.message@)
            == link_problem(*l),
{
    match validate_http_url(l.url.as_str()) {
        Ok(_) => {},
        Err(x) => return Err(x),
    }
    validate_link_type(l.link_type.as_str())
}

/// Checks an import before anything is stored.
pub fn validate_import(import: &BookImport) -> (r: Result<(), MediaError>)
    ensures
        r is Err <==> import_problem(*import) is Some,
        r matches Err(x) ==> x.kind == MediaErrorKind::Validation && Some(x.message@)
            == import_problem(*import),
{
    if trim_chars(&chars_of(import.title.as_str())).len() == 0 {
        return Err(MediaError::validation("A normalized book title is required."));
    }
    if import.editions.len() == 0 {
        return Err(MediaError::validation("A book import requires at least one edition."));
    }
    let mut i: usize = 0;
    assert(import.editions@.skip(0) =~= import.editions@);
    while i < import.editions.len()
        invariant
            i <= import.editions@.len(),
            editions_problem(import.editions@.skip(i as int)) == editions_problem(
                import.editions@,
            ),
            trim(import.title@).len() > 0,
            import.editions@.len() > 0,
        decreases import.editions@.len() - i,
    {
        assert(import.editions@.skip(i as int).drop_first() =~= import.editions@.skip(i + 1));
        assert(import.editions@.skip(i as int)[0] == import.editions@[i as int]);
        match check_edition(&import.editions[i]) {
            Ok(()) => {},
            Err(x) => return Err(x),
        }
        i = i + 1;
    }
    assert(import.editions@.skip(i as int).len() == 0);
    let mut j: usize = 0;
    assert(import.links@.skip(0) =~= import.links@);
    while j < import.links.len()
        invariant
            j <= import.links@.len(),
            links_problem(import.links@.skip(j as int)) == links_problem(import.links@),
            trim(import.title@).len() > 0,
            import.editions@.len() > 0,
            editions_problem(import.editions@) is None,
        decreases import.links@.len() - j,
    {
        assert(import.links@.skip(j as int).drop_first() =~= import.links@.skip(j + 1));
        assert(import.links@.skip(j as int)[0] == import.links@[j as int]);
        match check_link(&import.links[j]) {
            Ok(()) => {},
            Err(x) => return Err(x),
        }
        j = j + 1;
    }
    assert(import.links@.skip(j as int).len() == 0);
    Ok(())
}

// ------------------------------------------------------------ statements

/// The title row's parameters: trimmed title, description, the year as
/// text (empty when unknown), cover, and the first link's URL (or empty).
pub open spec fn title_row(import: BookImport) -> (Seq<char>, Seq<char>, Seq<char>, Seq<char>, Seq<char>) {
    (
        trim(import.title@),
        import.description@,
        match import.first_publish_year {
            Some(y) => signed_decimal(y as int),
            None => seq![],
        },
        import.canonical_cover_url@,
        if import.links@.len() > 0 {
            import.links@[0].url@
        } else {
            seq![]
        },
    )
}

pub const INSERT_TITLE_SQL: &'static str = "
            INSERT INTO obj_media_title (
                source_key, external_media_type, content_type, title, original_title,
                overview, release_date, poster_path, homepage_url, metadata_refreshed_at
            ) VALUES ('book', 'book', 'BOOK', ?1, ?1, ?2, ?3, ?4, ?5, datetime('now','localtime'))
            ";

/// The statement that stores the title of an import (see `title_row`).
pub fn insert_title_statement(import: &BookImport) -> (r: SqlStatement)
    ensures
        statement_view(r) == (
            INSERT_TITLE_SQL@,
            seq![
                text_arg(title_row(*import).0),
                text_arg(title_row(*import).1),
                text_arg(title_row(*import).2),
                text_arg(title_row(*import).3),
                text_arg(title_row(*import).4),
            ],
        ),
{
    proof {
        reveal_strlit("");
    }
    let year = match import.first_publish_year {
        Some(y) => owned_text_param(string_of(&i64_to_decimal(y))),
        None => text_param(""),
    };
    let homepage = if import.links.len() > 0 {
        text_param(import.links[0].url.as_str())
    } else {
        text_param("")
    };
    assert(param_view(year) == text_arg(title_row(*import).2));
    assert(param_view(homepage) == text_arg(title_row(*import).4));
    let mut p: Vec<SqlParam> = Vec::new();
    p.push(owned_text_param(string_of(&trim_chars(&chars_of(import.title.as_str())))));
    p.push(text_param(import.description.as_str()));
    p.push(year);
    p.push(text_param(import.canonical_cover_url.as_str()));
    p.push(homepage);
    let r = SqlStatement { sql: INSERT_TITLE_SQL, params: p };
    assert(params_view(r.params@) =~= seq![
        text_arg(title_row(*import).0),
        text_arg(title_row(*import).1),
        text_arg(title_row(*import).2),
        text_arg(title_row(*import).3),
        text_arg(title_row(*import).4),
    ]);
    r
}

/// The authors joined by `", "`, as the work row keeps them.
fn author_text(authors: &Vec<String>) -> (r: String)
    ensures
        r@ == join(string_views(authors@), ", "@),
{
    let mut out: Vec<char> = Vec::new();
    let mut i: usize = 0;
    proof {
        reveal_strlit(", ");
    }
    while i < authors.len()
        invariant
            i <= authors@.len(),
            out@ == join(string_views(authors@).take(i as int), ", "@),
            ", "@ == seq![',', ' '],
        decreases authors@.len() - i,
    {
        let ghost before = string_views(authors@).take(i as int);
        assert(string_views(authors@).take(i + 1) =~= before.push(authors@[i as int]@));
        proof {
            crate::text::lemma_join_push(before, ", "@, authors@[i as int]@);
        }
        if i > 0 {
            extend_str(&mut out, ", ");
        }
        extend_chars(&mut out, &chars_of(authors[i].as_str()));
        i = i + 1;
    }
    assert(string_views(authors@).take(authors@.len() as int) =~= string_views(authors@));
    string_of(&out)
}

/// A lower-case hexadecimal digit.
pub open spec fn hex_lower(n: int) -> char {
    if n < 10 {
        (48 + n) as char
    } else {
        (87 + n) as char
    }
}

/// A character inside a JSON string as serde_json writes it: quote and
/// backslash escaped, the common control characters by letter, the other
/// control characters as `\u00` and two lower-case hex digits, anything
/// else as it is.
pub open spec fn json_escaped_char(c: char) -> Seq<char> {
    if c == '"' {
        seq!['\\', '"']
    } else if c == '\\' {
        seq!['\\', '\\']
    } else if c == '\u{8}' {
        seq!['\\', 'b']
    } else if c == '\t' {
        seq!['\\', 't']
    } else if c == '\n' {
        seq!['\\', 'n']
    } else if c == '\u{c}' {
        seq!['\\', 'f']
    } else if c == '\r' {
        seq!['\\', 'r']
    } else if (c as u32) < 0x20 {
        seq!['\\', 'u', '0', '0', hex_lower((c as int) / 16), hex_lower((c as int) % 16)]
    } else {
        seq![c]
    }
}

pub open spec fn json_escaped(s: Seq<char>) -> Seq<char>
    decreases s.len(),
{
    if s.len() == 0 {
        seq![]
    } else {
        json_escaped(s.drop_last()) + json_escaped_char(s.last())
    }
}

/// A text as a JSON string.
pub open spec fn json_string(s: Seq<char>) -> Seq<char> {
    seq!['"'] + json_escaped(s) + seq!['"']
}

/// `serde_json::to_string` of a list of texts: the JSON strings of the
/// texts, separated by commas, in brackets.
pub open spec fn json_text_list(items: Seq<Seq<char>>) -> Seq<char> {
    seq!['['] + join(items.map_values(|s: Seq<char>| json_string(s)), seq![',']) + seq![']']
}

/// `serde_json::to_string` of a list of texts (which cannot fail for a
/// list of strings; `[]` stands in should it). The contract claims the
/// text is `json_text_list` of the items.
#[verifier::external_body]
fn subjects_json(items: &Vec<String>) -> (r: String)
    ensures
        r@ == json_text_list(string_views(items@)),
{
    serde_json::to_string(items).unwrap_or_else(|_| "[]".to_string())
}

// ------------------------------------------------------------ storing

pub const INSERT_ENTRY_SQL: &'static str = "INSERT INTO obj_media_library_entry (media_title_id, library_status) VALUES (?1, ?2)";

/// The statement that stores the library entry of a new title.
pub fn insert_entry_statement(title_id: i64, status: MediaLibraryStatus) -> (r: SqlStatement)
    ensures
        statement_view(r) == (INSERT_ENTRY_SQL@, seq![int_arg(title_id), text_arg(status.label())]),
{
    let mut p: Vec<SqlParam> = Vec::new();
    p.push(int_param(title_id));
    p.push(text_param(status.as_str()));
    let r = SqlStatement { sql: INSERT_ENTRY_SQL, params: p };
    assert(params_view(r.params@) =~= seq![int_arg(title_id), text_arg(status.label())]);
    r
}

pub const INSERT_WORK_SQL: &'static str = "
            INSERT INTO obj_media_book_work (
                media_title_id, subtitle, primary_author_text, first_publish_year,
                subjects_json, canonical_cover_url, community_rating, community_rating_count,
                metadata_refreshed_at
            ) VALUES (?1,?2,?3,?4,?5,?6,?7,?8,datetime('now','localtime'))
            ";

/// The work row of an import: subtitle, the authors joined by `", "`, the
/// year, the subjects as a JSON list, the cover, no community rating, and
/// the ratings count.
pub open spec fn work_args(title_id: i64, import: BookImport) -> Seq<(u8, i64, Seq<char>)> {
    seq![
        int_arg(title_id),
        text_arg(import.subtitle@),
        text_arg(join(string_views(import.authors@), ", "@)),
        opt_int_arg(import.first_publish_year),
        text_arg(json_text_list(string_views(import.subjects@))),
        text_arg(import.canonical_cover_url@),
        null_arg(),
        opt_int_arg(import.community_rating_count),
    ]
}

pub fn insert_work_statement(title_id: i64, import: &BookImport) -> (r: SqlStatement)
    ensures
        statement_view(r) == (INSERT_WORK_SQL@, work_args(title_id, *import)),
{
    let mut p: Vec<SqlParam> = Vec::new();
    p.push(int_param(title_id));
    p.push(text_param(import.subtitle.as_str()));
    p.push(owned_text_param(author_text(&import.authors)));
    p.push(opt_int_param(import.first_publish_year));
    p.push(owned_text_param(subjects_json(&import.subjects)));
    p.push(text_param(import.canonical_cover_url.as_str()));
    p.push(null_param());
    p.push(opt_int_param(import.community_rating_count));
    let r = SqlStatement { sql: INSERT_WORK_SQL, params: p };
    assert(params_view(r.params@) =~= work_args(title_id, *import));
    r
}

pub const INSERT_READER_SQL: &'static str = "
            INSERT INTO obj_media_book_reader_state (
                media_library_entry_id, preferred_edition_id, preferred_format
            ) VALUES (?1, ?2, ?3)
            ";

/// The format a new book is read in: its first edition's, else unknown.
pub open spec fn first_format(import: BookImport) -> Seq<char> {
    if import.editions@.len() > 0 {
        import.editions@[0].format.label()
    } else {
        BookFormat::Unknown.label()
    }
}

/// The reader state of a new book: on its first edition, in its format.
pub fn insert_reader_statement(entry_id: i64, first_edition_id: Option<i64>, import: &BookImport) -> (r:
    SqlStatement)
    ensures
        statement_view(r) == (
            INSERT_READER_SQL@,
            seq![int_arg(entry_id), opt_int_arg(first_edition_id), text_arg(first_format(*import))],
        ),
{
    let mut p: Vec<SqlParam> = Vec::new();
    p.push(int_param(entry_id));
    p.push(opt_int_param(first_edition_id));
    if import.editions.len() > 0 {
        p.push(text_param(import.editions[0].format.as_str()));
    } else {
        p.push(text_param(BookFormat::Unknown.as_str()));
    }
    let r = SqlStatement { sql: INSERT_READER_SQL, params: p };
    assert(params_view(r.params@) =~= seq![
        int_arg(entry_id),
        opt_int_arg(first_edition_id),
        text_arg(first_format(*import)),
    ]);
    r
}

/// The placeholder source row that a provider failure leaves for a title.
pub open spec fn status_external_id(title_id: i64, source_key: Seq<char>) -> Seq<char> {
    "status-"@ + signed_decimal(title_id as int) + "-"@ + source_key
}

pub fn status_id(title_id: i64, source_key: &str) -> (r: String)
    ensures
        r@ == status_external_id(title_id, source_key@),
{
    let mut v = chars_of("status-");
    extend_chars(&mut v, &i64_to_decimal(title_id));
    extend_str(&mut v, "-");
    extend_str(&mut v, source_key);
    string_of(&v)
}

pub const MARK_FAILED_SQL: &'static str = "
            UPDATE obj_media_book_source_record
            SET last_refresh_status='FAILED',last_refresh_error=?3,
                updated_at=datetime('now','localtime')
            WHERE media_title_id=?1 AND source_key=?2
            ";

pub const INSERT_FAILED_SQL: &'static str = "
                INSERT INTO obj_media_book_source_record (
                    media_title_id,source_key,entity_type,external_id,
                    last_refresh_status,last_refresh_error
                ) VALUES (?1,?2,'BOOK',?3,'FAILED',?4)
                ";

/// The statement that marks a provider's source rows of a title failed.
pub fn mark_failed_statement(title_id: i64, failure: &BookProviderFailure) -> (r: SqlStatement)
    ensures
        statement_view(r) == (
            MARK_FAILED_SQL@,
            seq![int_arg(title_id), text_arg(failure.source_key@), text_arg(failure.message@)],
        ),
{
    let mut p: Vec<SqlParam> = Vec::new();
    p.push(int_param(title_id));
    p.push(text_param(failure.source_key.as_str()));
    p.push(text_param(failure.message.as_str()));
    let r = SqlStatement { sql: MARK_FAILED_SQL, params: p };
    assert(params_view(r.params@) =~= seq![
        int_arg(title_id),
        text_arg(failure.source_key@),
        text_arg(failure.message@),
    ]);
    r
}

/// The statement that adds a failed placeholder row for a provider that
/// has no source row for the title.
pub fn insert_failed_statement(title_id: i64, failure: &BookProviderFailure) -> (r: SqlStatement)
    ensures
        statement_view(r) == (
            INSERT_FAILED_SQL@,
            seq![
                int_arg(title_id),
                text_arg(failure.source_key@),
                text_arg(status_external_id(title_id, failure.source_key@)),
                text_arg(failure.message@),
            ],
        ),
{
    let mut p: Vec<SqlParam> = Vec::new();
    p.push(int_param(title_id));
    p.push(text_param(failure.source_key.as_str()));
    p.push(owned_text_param(status_id(title_id, failure.source_key.as_str())));
    p.push(text_param(failure.message.as_str()));
    let r = SqlStatement { sql: INSERT_FAILED_SQL, params: p };
    assert(params_view(r.params@) =~= seq![
        int_arg(title_id),
        text_arg(failure.source_key@),
        text_arg(status_external_id(title_id, failure.source_key@)),
        text_arg(failure.message@),
    ]);
    r
}

/// Marks each failed provider's source rows of a title as failed, adding a
/// placeholder row (see `insert_failed_statement`) for a provider whose
/// mark changed no row.
/// The statements that record a provider failure: its source rows are
/// marked failed, and when there were none a failed placeholder row is
/// added (`inserted`).
pub open spec fn failure_step(title_id: i64, failure: BookProviderFailure, inserted: bool) -> Seq<StatementView> {
    let mark = (MARK_FAILED_SQL@, seq![int_arg(title_id), text_arg(failure.source_key@), text_arg(failure.message@)]);
    if inserted {
        seq![
            mark,
            (
                INSERT_FAILED_SQL@,
                seq![
                    int_arg(title_id),
                    text_arg(failure.source_key@),
                    text_arg(status_external_id(title_id, failure.source_key@)),
                    text_arg(failure.message@),
                ],
            ),
        ]
    } else {
        seq![mark]
    }
}

/// Records each provider failure on the title (`failure_step`); the result
/// says for each whether a placeholder row was added.
pub fn record_provider_failures(
    connection: &rusqlite::Connection,
    title_id: i64,
    failures: &Vec<BookProviderFailure>,
    log: &mut Ghost<Seq<StatementView>>,
) -> (r: Result<Ghost<Seq<bool>>, MediaError>)
    ensures
        r matches Err(e) ==> is_database_error(e),
        r matches Ok(ins) ==> ins@.len() == failures@.len() && final(log)@ == old(log)@ + steps(
            failures@.len(),
            |i: int| failure_step(title_id, failures@[i], ins@[i]),
        ),
{
    let ghost start = log@;
    let mut ins: Ghost<Seq<bool>> = Ghost(Seq::empty());
    let mut i: usize = 0;
    while i < failures.len()
        invariant
            i <= failures@.len(),
            ins@.len() == i,
            log@ == start + steps(i as nat, |k: int| failure_step(title_id, failures@[k], ins@[k])),
        decreases failures@.len() - i,
    {
        let ghost before = ins@;
        let ghost before_log = log@;
        let changed = match run_logged(connection, &mark_failed_statement(title_id, &failures[i]), log) {
            Ok(n) => n,
            Err(e) => return Err(e),
        };
        if changed == 0 {
            match run_logged(connection, &insert_failed_statement(title_id, &failures[i]), log) {
                Ok(_) => {},
                Err(e) => return Err(e),
            }
        }
        ins = Ghost(before.push(changed == 0));
        proof {
            let old_step = |k: int| failure_step(title_id, failures@[k], before[k]);
            let new_step = |k: int| failure_step(title_id, failures@[k], ins@[k]);
            assert(before_log == start + steps(i as nat, old_step));
            assert(Seq::new(i as nat, old_step) =~= Seq::new(i as nat, new_step));
            assert(steps(i as nat, old_step) == steps(i as nat, new_step));
            lemma_steps_push(i as nat, new_step);
            assert(log@ =~= before_log + failure_step(title_id, failures@[i as int], ins@[i as int]));
            assert(log@ =~= start + steps(i as nat + 1, new_step));
        }
        i = i + 1;
    }
    Ok(ins)
}

/// The edition a row points at: the id stored for the edition at that
/// index, when there is one.
pub open spec fn edition_id_at(edition_ids: Seq<i64>, index: Option<usize>) -> Option<i64> {
    match index {
        Some(k) => if k < edition_ids.len() {
            Some(edition_ids[k as int])
        } else {
            None
        },
        None => None,
    }
}

pub fn edition_at(edition_ids: &Vec<i64>, index: Option<usize>) -> (r: Option<i64>)
    ensures
        r == edition_id_at(edition_ids@, index),
{
    match index {
        Some(k) => if k < edition_ids.len() {
            Some(edition_ids[k])
        } else {
            None
        },
        None => None,
    }
}

pub const DELETE_PLACEHOLDER_SQL: &'static str = "DELETE FROM obj_media_book_source_record
             WHERE media_title_id=?1 AND source_key=?2 AND entity_type='BOOK'
               AND external_id=?3";

pub const UPSERT_SOURCE_SQL: &'static str = "
            INSERT INTO obj_media_book_source_record (
                media_title_id,edition_id,source_key,entity_type,external_id,source_url,
                metadata_json,refreshed_at,last_refresh_status,last_refresh_error
            ) VALUES (?1,?2,?3,?4,?5,?6,?7,datetime('now','localtime'),'SUCCESS','')
            ON CONFLICT(source_key,entity_type,external_id) DO UPDATE SET
                edition_id=COALESCE(excluded.edition_id,obj_media_book_source_record.edition_id),
                source_url=CASE WHEN excluded.source_url<>'' THEN excluded.source_url ELSE obj_media_book_source_record.source_url END,
                metadata_json=CASE WHEN excluded.metadata_json<>'{}' THEN excluded.metadata_json ELSE obj_media_book_source_record.metadata_json END,
                refreshed_at=excluded.refreshed_at,last_refresh_status='SUCCESS',last_refresh_error='',
                updated_at=datetime('now','localtime')
            ";

/// The statement that removes a provider's failed placeholder row before
/// its real source row is stored.
pub fn delete_placeholder_statement(title_id: i64, source: &NormalizedBookSource) -> (r:
    SqlStatement)
    ensures
        statement_view(r) == (
            DELETE_PLACEHOLDER_SQL@,
            seq![
                int_arg(title_id),
                text_arg(source.source_key@),
                text_arg(status_external_id(title_id, source.source_key@)),
            ],
        ),
{
    let mut p: Vec<SqlParam> = Vec::new();
    p.push(int_param(title_id));
    p.push(text_param(source.source_key.as_str()));
    p.push(owned_text_param(status_id(title_id, source.source_key.as_str())));
    let r = SqlStatement { sql: DELETE_PLACEHOLDER_SQL, params: p };
    assert(params_view(r.params@) =~= seq![
        int_arg(title_id),
        text_arg(source.source_key@),
        text_arg(status_external_id(title_id, source.source_key@)),
    ]);
    r
}

/// The statement that stores a source row as refreshed successfully.
pub fn upsert_source_statement(title_id: i64, edition_id: Option<i64>, source: &NormalizedBookSource) -> (r:
    SqlStatement)
    ensures
        statement_view(r) == (
            UPSERT_SOURCE_SQL@,
            seq![
                int_arg(title_id),
                opt_int_arg(edition_id),
                text_arg(source.source_key@),
                text_arg(source.entity_type@),
                text_arg(source.external_id@),
                text_arg(source.source_url@),
                text_arg(source.metadata_json@),
            ],
        ),
{
    let mut p: Vec<SqlParam> = Vec::new();
    p.push(int_param(title_id));
    p.push(opt_int_param(edition_id));
    p.push(text_param(source.source_key.as_str()));
    p.push(text_param(source.entity_type.as_str()));
    p.push(text_param(source.external_id.as_str()));
    p.push(text_param(source.source_url.as_str()));
    p.push(text_param(source.metadata_json.as_str()));
    let r = SqlStatement { sql: UPSERT_SOURCE_SQL, params: p };
    assert(params_view(r.params@) =~= seq![
        int_arg(title_id),
        opt_int_arg(edition_id),
        text_arg(source.source_key@),
        text_arg(source.entity_type@),
        text_arg(source.external_id@),
        text_arg(source.source_url@),
        text_arg(source.metadata_json@),
    ]);
    r
}

/// The statements that store a source row: its placeholder is dropped,
/// then the row is stored on its edition.
pub open spec fn source_step(title_id: i64, edition_ids: Seq<i64>, source: NormalizedBookSource) -> Seq<StatementView> {
    seq![
        (
            DELETE_PLACEHOLDER_SQL@,
            seq![
                int_arg(title_id),
                text_arg(source.source_key@),
                text_arg(status_external_id(title_id, source.source_key@)),
            ],
        ),
        (
            UPSERT_SOURCE_SQL@,
            seq![
                int_arg(title_id),
                opt_int_arg(edition_id_at(edition_ids, source.edition_index)),
                text_arg(source.source_key@),
                text_arg(source.entity_type@),
                text_arg(source.external_id@),
                text_arg(source.source_url@),
                text_arg(source.metadata_json@),
            ],
        ),
    ]
}

/// Stores the import's source rows, in order (`source_step`).
fn insert_sources(
    connection: &rusqlite::Connection,
    title_id: i64,
    edition_ids: &Vec<i64>,
    import: &BookImport,
    log: &mut Ghost<Seq<StatementView>>,
) -> (r: Result<(), MediaError>)
    ensures
        r matches Err(e) ==> is_database_error(e),
        r is Ok ==> final(log)@ == old(log)@ + steps(
            import.sources@.len(),
            |i: int| source_step(title_id, edition_ids@, import.sources@[i]),
        ),
{
    let ghost start = log@;
    let ghost step = |i: int| source_step(title_id, edition_ids@, import.sources@[i]);
    let mut i: usize = 0;
    while i < import.sources.len()
        invariant
            i <= import.sources@.len(),
            step == (|i: int| source_step(title_id, edition_ids@, import.sources@[i])),
            log@ == start + steps(i as nat, step),
        decreases import.sources@.len() - i,
    {
        proof {
            lemma_steps_push(i as nat, step);
        }
        let s = &import.sources[i];
        match run_logged(connection, &delete_placeholder_statement(title_id, s), log) {
            Ok(_) => {},
            Err(e) => return Err(e),
        }
        let edition_id = edition_at(edition_ids, s.edition_index);
        match run_logged(connection, &upsert_source_statement(title_id, edition_id, s), log) {
            Ok(_) => {},
            Err(e) => return Err(e),
        }
        assert(log@ =~= start + steps(i as nat + 1, step));
        i = i + 1;
    }
    Ok(())
}

pub const FIND_AUTHOR_SQL: &'static str = "
                SELECT author.id FROM obj_media_book_author author
                JOIN n2n_media_book_work_author mapping ON mapping.author_id=author.id
                WHERE mapping.media_title_id=?1 AND author.name=?2 COLLATE NOCASE AND mapping.role='AUTHOR'
                ";

pub const INSERT_AUTHOR_SQL: &'static str = "INSERT INTO obj_media_book_author (name,sort_name) VALUES (?1,?1)";

pub const MAP_AUTHOR_SQL: &'static str = "INSERT OR IGNORE INTO n2n_media_book_work_author (media_title_id,author_id,role,position) VALUES (?1,?2,'AUTHOR',?3)";

/// The query for an author of the title with this name, ignoring case.
pub fn find_author_statement(title_id: i64, name: &str) -> (r: SqlStatement)
    ensures
        statement_view(r) == (FIND_AUTHOR_SQL@, seq![int_arg(title_id), text_arg(name@)]),
{
    let mut p: Vec<SqlParam> = Vec::new();
    p.push(int_param(title_id));
    p.push(text_param(name));
    let r = SqlStatement { sql: FIND_AUTHOR_SQL, params: p };
    assert(params_view(r.params@) =~= seq![int_arg(title_id), text_arg(name@)]);
    r
}

pub fn insert_author_statement(name: &str) -> (r: SqlStatement)
    ensures
        statement_view(r) == (INSERT_AUTHOR_SQL@, seq![text_arg(name@)]),
{
    let mut p: Vec<SqlParam> = Vec::new();
    p.push(text_param(name));
    let r = SqlStatement { sql: INSERT_AUTHOR_SQL, params: p };
    assert(params_view(r.params@) =~= seq![text_arg(name@)]);
    r
}

/// The statement that names an author of the title at a position.
pub fn map_author_statement(title_id: i64, author_id: i64, position: i64) -> (r: SqlStatement)
    ensures
        statement_view(r) == (
            MAP_AUTHOR_SQL@,
            seq![int_arg(title_id), int_arg(author_id), int_arg(position)],
        ),
{
    let mut p: Vec<SqlParam> = Vec::new();
    p.push(int_param(title_id));
    p.push(int_param(author_id));
    p.push(int_param(position));
    let r = SqlStatement { sql: MAP_AUTHOR_SQL, params: p };
    assert(params_view(r.params@) =~= seq![int_arg(title_id), int_arg(author_id), int_arg(position)]);
    r
}

/// The place of the `i`th author in the list.
pub open spec fn author_position(i: int) -> i64 {
    if i < 0x7fff_ffff_ffff_ffff {
        i as i64
    } else {
        i64::MAX
    }
}

/// The statements that name one author on the title: none for a blank
/// name; else the author is added when the title did not name it yet
/// (`chosen.0`), and mapped by its id (`chosen.1`) at its position.
pub open spec fn author_step(title_id: i64, author: Seq<char>, i: int, chosen: (bool, i64)) -> Seq<StatementView> {
    let name = squeeze_ws(author);
    if name.len() == 0 {
        seq![]
    } else {
        (if chosen.0 {
            seq![(INSERT_AUTHOR_SQL@, seq![text_arg(name)])]
        } else {
            seq![]
        }) + seq![(MAP_AUTHOR_SQL@, seq![int_arg(title_id), int_arg(chosen.1), int_arg(author_position(i))])]
    }
}

/// Names the import's authors on the title, each by its words joined by
/// single spaces, at its position in the list; blank names are skipped and
/// an author the title already names (ignoring case) is reused.
pub(crate) fn insert_authors(
    connection: &rusqlite::Connection,
    title_id: i64,
    authors: &Vec<String>,
    log: &mut Ghost<Seq<StatementView>>,
) -> (r: Result<Ghost<Seq<(bool, i64)>>, MediaError>)
    ensures
        r matches Err(e) ==> is_database_error(e),
        r matches Ok(ch) ==> ch@.len() == authors@.len() && final(log)@ == old(log)@ + steps(
            authors@.len(),
            |k: int| author_step(title_id, authors@[k]@, k, ch@[k]),
        ),
{
    let ghost start = log@;
    let mut ch: Ghost<Seq<(bool, i64)>> = Ghost(Seq::empty());
    let mut i: usize = 0;
    while i < authors.len()
        invariant
            i <= authors@.len(),
            ch@.len() == i,
            log@ == start + steps(i as nat, |k: int| author_step(title_id, authors@[k]@, k, ch@[k])),
        decreases authors@.len() - i,
    {
        let ghost before = ch@;
        let ghost before_log = log@;
        let name = string_of(&squeeze_ws_chars(&chars_of(authors[i].as_str())));
        let mut choice: Ghost<(bool, i64)> = Ghost((false, 0));
        if chars_of(name.as_str()).len() > 0 {
            let lookup = find_author_statement(title_id, name.as_str());
            let existing = match sql_optional_i64(connection, lookup.sql, &lookup.params) {
                Ok(found) => found,
                Err(e) => return Err(MediaError::from_sql(&e)),
            };
            let author_id = match existing {
                Some(id) => id,
                None => {
                    match run_logged(connection, &insert_author_statement(name.as_str()), log) {
                        Ok(_) => {},
                        Err(e) => return Err(e),
                    }
                    sql_last_insert_rowid(connection)
                },
            };
            choice = Ghost((existing is None, author_id));
            // `i` counts the authors of one import, far below `i64::MAX`.
            let position: i64 = if (i as u64) < 0x7fff_ffff_ffff_ffff {
                i as i64
            } else {
                i64::MAX
            };
            match run_logged(connection, &map_author_statement(title_id, author_id, position), log) {
                Ok(_) => {},
                Err(e) => return Err(e),
            }
        }
        ch = Ghost(before.push(choice@));
        proof {
            let old_step = |k: int| author_step(title_id, authors@[k]@, k, before[k]);
            let new_step = |k: int| author_step(title_id, authors@[k]@, k, ch@[k]);
            assert(before_log == start + steps(i as nat, old_step));
            assert(Seq::new(i as nat, old_step) =~= Seq::new(i as nat, new_step));
            assert(steps(i as nat, old_step) == steps(i as nat, new_step));
            lemma_steps_push(i as nat, new_step);
            assert(log@ =~= before_log + author_step(title_id, authors@[i as int]@, i as int, ch@[i as int]));
            assert(log@ =~= start + steps(i as nat + 1, new_step));
        }
        i = i + 1;
    }
    Ok(ch)
}

pub const FIND_PROVIDER_LINK_SQL: &'static str = "SELECT EXISTS(SELECT 1 FROM obj_media_book_link WHERE media_title_id=?1 AND source_key=?2 AND link_type=?3 AND url=?4 AND is_user_owned=0)";

pub const INSERT_PROVIDER_LINK_SQL: &'static str = "INSERT INTO obj_media_book_link (media_title_id,edition_id,source_key,link_type,url,region_code,is_user_owned,is_preferred,refreshed_at) VALUES (?1,?2,?3,?4,?5,?6,0,0,datetime('now','localtime'))";

/// The query for a provider link of the title with the same source, type
/// (upper-cased) and URL.
pub fn find_provider_link_statement(title_id: i64, link: &NormalizedBookLink) -> (r: SqlStatement)
    ensures
        statement_view(r) == (
            FIND_PROVIDER_LINK_SQL@,
            seq![
                int_arg(title_id),
                text_arg(link.source_key@),
                text_arg(upper_ascii(link.link_type@)),
                text_arg(link.url@),
            ],
        ),
{
    let mut p: Vec<SqlParam> = Vec::new();
    p.push(int_param(title_id));
    p.push(text_param(link.source_key.as_str()));
    p.push(owned_text_param(string_of(&upper_ascii_chars(&chars_of(link.link_type.as_str())))));
    p.push(text_param(link.url.as_str()));
    let r = SqlStatement { sql: FIND_PROVIDER_LINK_SQL, params: p };
    assert(params_view(r.params@) =~= seq![
        int_arg(title_id),
        text_arg(link.source_key@),
        text_arg(upper_ascii(link.link_type@)),
        text_arg(link.url@),
    ]);
    r
}

/// The statement that stores a provider link, neither user-owned nor
/// preferred.
pub fn insert_provider_link_statement(title_id: i64, edition_id: Option<i64>, link: &NormalizedBookLink) -> (r:
    SqlStatement)
    ensures
        statement_view(r) == (
            INSERT_PROVIDER_LINK_SQL@,
            seq![
                int_arg(title_id),
                opt_int_arg(edition_id),
                text_arg(link.source_key@),
                text_arg(upper_ascii(link.link_type@)),
                text_arg(link.url@),
                text_arg(link.region_code@),
            ],
        ),
{
    let mut p: Vec<SqlParam> = Vec::new();
    p.push(int_param(title_id));
    p.push(opt_int_param(edition_id));
    p.push(text_param(link.source_key.as_str()));
    p.push(owned_text_param(string_of(&upper_ascii_chars(&chars_of(link.link_type.as_str())))));
    p.push(text_param(link.url.as_str()));
    p.push(text_param(link.region_code.as_str()));
    let r = SqlStatement { sql: INSERT_PROVIDER_LINK_SQL, params: p };
    assert(params_view(r.params@) =~= seq![
        int_arg(title_id),
        opt_int_arg(edition_id),
        text_arg(link.source_key@),
        text_arg(upper_ascii(link.link_type@)),
        text_arg(link.url@),
        text_arg(link.region_code@),
    ]);
    r
}

/// A list of links with no problem has no link with one.
proof fn lemma_links_problem_none(v: Seq<NormalizedBookLink>)
    requires
        links_problem(v) is None,
    ensures
        forall|i: int| 0 <= i < v.len() ==> link_problem(#[trigger] v[i]) is None,
    decreases v.len(),
{
    if v.len() > 0 {
        lemma_links_problem_none(v.drop_first());
        assert forall|i: int| 0 <= i < v.len() implies link_problem(#[trigger] v[i]) is None by {
            if i > 0 {
                assert(v[i] == v.drop_first()[i - 1]);
            }
        }
    }
}

/// The statement that stores a provider link, when the title did not
/// have it yet (`inserted`).
pub open spec fn link_step(title_id: i64, edition_ids: Seq<i64>, link: NormalizedBookLink, inserted: bool) -> Seq<
    StatementView,
> {
    if inserted {
        seq![
            (
                INSERT_PROVIDER_LINK_SQL@,
                seq![
                    int_arg(title_id),
                    opt_int_arg(edition_id_at(edition_ids, link.edition_index)),
                    text_arg(link.source_key@),
                    text_arg(upper_ascii(link.link_type@)),
                    text_arg(link.url@),
                    text_arg(link.region_code@),
                ],
            ),
        ]
    } else {
        seq![]
    }
}

fn insert_provider_links(
    connection: &rusqlite::Connection,
    title_id: i64,
    edition_ids: &Vec<i64>,
    import: &BookImport,
    log: &mut Ghost<Seq<StatementView>>,
) -> (r: Result<Ghost<Seq<bool>>, MediaError>)
    requires
        links_problem(import.links@) is None,
    ensures
        r matches Err(e) ==> is_database_error(e),
        r matches Ok(ins) ==> ins@.len() == import.links@.len() && final(log)@ == old(log)@ + steps(
            import.links@.len(),
            |k: int| link_step(title_id, edition_ids@, import.links@[k], ins@[k]),
        ),
{
    proof {
        lemma_links_problem_none(import.links@);
    }
    let ghost start = log@;
    let mut ins: Ghost<Seq<bool>> = Ghost(Seq::empty());
    let mut i: usize = 0;
    while i < import.links.len()
        invariant
            i <= import.links@.len(),
            ins@.len() == i,
            forall|k: int| 0 <= k < import.links@.len() ==> link_problem(#[trigger] import.links@[k]) is None,
            log@ == start + steps(i as nat, |k: int| link_step(title_id, edition_ids@, import.links@[k], ins@[k])),
        decreases import.links@.len() - i,
    {
        let ghost before = ins@;
        let ghost before_log = log@;
        let l = &import.links[i];
        match check_link(l) {
            Ok(()) => {},
            Err(e) => return Err(e),
        }
        let probe = find_provider_link_statement(title_id, l);
        let exists = match sql_i64_value(connection, probe.sql, &probe.params) {
            Ok(v) => v != 0,
            Err(e) => return Err(MediaError::from_sql(&e)),
        };
        if !exists {
            let edition_id = edition_at(edition_ids, l.edition_index);
            match run_logged(connection, &insert_provider_link_statement(title_id, edition_id, l), log) {
                Ok(_) => {},
                Err(e) => return Err(e),
            }
        }
        ins = Ghost(before.push(!exists));
        proof {
            let old_step = |k: int| link_step(title_id, edition_ids@, import.links@[k], before[k]);
            let new_step = |k: int| link_step(title_id, edition_ids@, import.links@[k], ins@[k]);
            assert(before_log == start + steps(i as nat, old_step));
            assert(Seq::new(i as nat, old_step) =~= Seq::new(i as nat, new_step));
            assert(steps(i as nat, old_step) == steps(i as nat, new_step));
            lemma_steps_push(i as nat, new_step);
            assert(log@ =~= before_log + link_step(title_id, edition_ids@, import.links@[i as int], ins@[i as int]));
            assert(log@ =~= start + steps(i as nat + 1, new_step));
        }
        i = i + 1;
    }
    Ok(ins)
}

pub const INSERT_SERIES_SQL: &'static str = "INSERT OR IGNORE INTO obj_media_book_series (name) VALUES (?1)";

pub const FIND_SERIES_SQL: &'static str = "SELECT id FROM obj_media_book_series WHERE name=?1 COLLATE NOCASE";

pub const UPSERT_SERIES_MEMBER_SQL: &'static str = "
            INSERT INTO obj_media_book_series_member (
                series_id,media_title_id,position_text,position_sort,is_primary,source_key,is_user_override
            ) VALUES (?1,?2,?3,?4,?5,?6,?7)
            ON CONFLICT(series_id,media_title_id,source_key) DO UPDATE SET
                position_text=CASE WHEN excluded.position_text<>'' THEN excluded.position_text ELSE obj_media_book_series_member.position_text END,
                position_sort=COALESCE(excluded.position_sort,obj_media_book_series_member.position_sort),
                is_user_override=MAX(obj_media_book_series_member.is_user_override, excluded.is_user_override),
                updated_at=datetime('now','localtime')
            ";

pub fn series_name_statement(sql: &'static str, name: &str) -> (r: SqlStatement)
    ensures
        statement_view(r) == (sql@, seq![text_arg(trim(name@))]),
{
    let mut p: Vec<SqlParam> = Vec::new();
    p.push(owned_text_param(string_of(&trim_chars(&chars_of(name)))));
    let r = SqlStatement { sql, params: p };
    assert(params_view(r.params@) =~= seq![text_arg(trim(name@))]);
    r
}

/// The sort value of a position: its text, which the `REAL` column reads
/// as the number it shows; no value when the position is unknown.
pub open spec fn position_sort_arg(position_text: Seq<char>) -> (u8, i64, Seq<char>) {
    if position_text.len() == 0 {
        null_arg()
    } else {
        text_arg(position_text)
    }
}

/// The membership of the title in a series: its position (as text and as
/// a sort value), primary when it is the import's first series, from the
/// series' provider, a user override when that provider is `manual`.
pub open spec fn series_member_args(
    series_id: i64,
    title_id: i64,
    index: int,
    s: NormalizedBookSeries,
) -> Seq<(u8, i64, Seq<char>)> {
    seq![
        int_arg(series_id),
        int_arg(title_id),
        text_arg(s.position_text@),
        position_sort_arg(s.position_text@),
        flag_arg(index == 0),
        text_arg(s.source_key@),
        flag_arg(s.source_key@ == "manual"@),
    ]
}

pub fn series_member_statement(series_id: i64, title_id: i64, index: usize, s: &NormalizedBookSeries) -> (r:
    SqlStatement)
    ensures
        statement_view(r) == (
            UPSERT_SERIES_MEMBER_SQL@,
            series_member_args(series_id, title_id, index as int, *s),
        ),
{
    proof {
        reveal_strlit("manual");
    }
    let mut p: Vec<SqlParam> = Vec::new();
    p.push(int_param(series_id));
    p.push(int_param(title_id));
    p.push(text_param(s.position_text.as_str()));
    if chars_of(s.position_text.as_str()).len() == 0 {
        p.push(null_param());
    } else {
        p.push(text_param(s.position_text.as_str()));
    }
    p.push(flag_param(index == 0));
    p.push(text_param(s.source_key.as_str()));
    p.push(flag_param(chars_eq_str(&chars_of(s.source_key.as_str()), "manual")));
    let r = SqlStatement { sql: UPSERT_SERIES_MEMBER_SQL, params: p };
    assert(params_view(r.params@) =~= series_member_args(series_id, title_id, index as int, *s));
    r
}

/// Stores the import's series (blank names skipped): each series by its
/// trimmed name, once, and the title's membership in it.
/// The statements that store one series of the title: none for a blank
/// name; else the series by its trimmed name, then the membership under
/// the series' id (`series_id`).
pub open spec fn series_step(title_id: i64, s: NormalizedBookSeries, i: int, series_id: i64) -> Seq<StatementView> {
    if trim(s.name@).len() == 0 {
        seq![]
    } else {
        seq![
            (INSERT_SERIES_SQL@, seq![text_arg(trim(s.name@))]),
            (UPSERT_SERIES_MEMBER_SQL@, series_member_args(series_id, title_id, i, s)),
        ]
    }
}

pub(crate) fn insert_series(
    connection: &rusqlite::Connection,
    title_id: i64,
    import: &BookImport,
    log: &mut Ghost<Seq<StatementView>>,
) -> (r: Result<Ghost<Seq<i64>>, MediaError>)
    ensures
        r matches Err(e) ==> is_database_error(e),
        r matches Ok(ids) ==> ids@.len() == import.series@.len() && final(log)@ == old(log)@ + steps(
            import.series@.len(),
            |k: int| series_step(title_id, import.series@[k], k, ids@[k]),
        ),
{
    let ghost start = log@;
    let mut ids: Ghost<Seq<i64>> = Ghost(Seq::empty());
    let mut i: usize = 0;
    while i < import.series.len()
        invariant
            i <= import.series@.len(),
            ids@.len() == i,
            log@ == start + steps(i as nat, |k: int| series_step(title_id, import.series@[k], k, ids@[k])),
        decreases import.series@.len() - i,
    {
        let ghost before = ids@;
        let ghost before_log = log@;
        let s = &import.series[i];
        let mut chosen: Ghost<i64> = Ghost(0);
        if trim_chars(&chars_of(s.name.as_str())).len() > 0 {
            match run_logged(connection, &series_name_statement(INSERT_SERIES_SQL, s.name.as_str()), log) {
                Ok(_) => {},
                Err(e) => return Err(e),
            }
            let find = series_name_statement(FIND_SERIES_SQL, s.name.as_str());
            let series_id = match sql_i64_value(connection, find.sql, &find.params) {
                Ok(id) => id,
                Err(e) => return Err(MediaError::from_sql(&e)),
            };
            chosen = Ghost(series_id);
            match run_logged(connection, &series_member_statement(series_id, title_id, i, s), log) {
                Ok(_) => {},
                Err(e) => return Err(e),
            }
        }
        ids = Ghost(before.push(chosen@));
        proof {
            let old_step = |k: int| series_step(title_id, import.series@[k], k, before[k]);
            let new_step = |k: int| series_step(title_id, import.series@[k], k, ids@[k]);
            assert(before_log == start + steps(i as nat, old_step));
            assert(Seq::new(i as nat, old_step) =~= Seq::new(i as nat, new_step));
            assert(steps(i as nat, old_step) == steps(i as nat, new_step));
            lemma_steps_push(i as nat, new_step);
            assert(log@ =~= before_log + series_step(title_id, import.series@[i as int], i as int, ids@[i as int]));
            assert(log@ =~= start + steps(i as nat + 1, new_step));
        }
        i = i + 1;
    }
    Ok(ids)
}

/// The first library entry that one of the lookups found.
pub open spec fn first_found(found: Seq<Option<i64>>) -> Option<i64>
    decreases found.len(),
{
    if found.len() == 0 {
        None
    } else if found[0] is Some {
        found[0]
    } else {
        first_found(found.drop_first())
    }
}

/// What becomes of an import after its duplicate lookups: the entry found
/// first, if any, takes it; otherwise it is stored as a new book.
pub fn duplicate_of(found: &Vec<Option<i64>>) -> (r: Option<i64>)
    ensures
        r == first_found(found@),
{
    let mut i: usize = 0;
    assert(found@.skip(0) =~= found@);
    while i < found.len()
        invariant
            i <= found@.len(),
            first_found(found@.skip(i as int)) == first_found(found@),
        decreases found@.len() - i,
    {
        assert(found@.skip(i as int).drop_first() =~= found@.skip(i + 1));
        assert(found@.skip(i as int)[0] == found@[i as int]);
        if found[i].is_some() {
            return found[i];
        }
        i = i + 1;
    }
    assert(found@.skip(i as int).len() == 0);
    None
}

/// The warnings a provider failure gives: the provider's name and its
/// message.
pub open spec fn provider_warnings(failures: Seq<BookProviderFailure>) -> Seq<Seq<char>> {
    failures.map_values(|f: BookProviderFailure| provider_display_name(f.source_key@) + ": "@ + f.message@)
}

pub fn warnings_of(failures: &Vec<BookProviderFailure>) -> (r: Vec<String>)
    ensures
        string_views(r@) == provider_warnings(failures@),
{
    let mut out: Vec<String> = Vec::new();
    let mut i: usize = 0;
    while i < failures.len()
        invariant
            i <= failures@.len(),
            string_views(out@) == provider_warnings(failures@.take(i as int)),
        decreases failures@.len() - i,
    {
        let ghost before = out@;
        out.push(failures[i].warning_message());
        assert(string_views(out@) =~= string_views(before).push(out@[i as int]@));
        assert(provider_warnings(failures@.take(i + 1)) =~= provider_warnings(failures@.take(i as int)).push(
            provider_display_name(failures@[i as int].source_key@) + ": "@ + failures@[i as int].message@,
        ));
        i = i + 1;
    }
    assert(failures@.take(failures@.len() as int) =~= failures@);
    out
}

/// What adding an import gives: the library entry that holds the book and
/// the warnings of the providers that failed.
#[derive(Debug)]
pub struct BookImportOutcome {
    pub entry_id: i64,
    pub provider_warnings: Vec<String>,
}

/// What storing a new book read back from the database: the ids of the
/// title, entry and editions, and for each failure, author, link and
/// series what the database already held (see the `*_step` functions).
pub struct StoredBook {
    pub title_id: i64,
    pub entry_id: i64,
    pub edition_ids: Vec<i64>,
    pub failures_inserted: Ghost<Seq<bool>>,
    pub authors_chosen: Ghost<Seq<(bool, i64)>>,
    pub links_inserted: Ghost<Seq<bool>>,
    pub series_ids: Ghost<Seq<i64>>,
}

/// The statement that stores an edition of the title.
pub open spec fn edition_step(title_id: i64, e: NormalizedBookEdition) -> Seq<StatementView> {
    seq![
        (
            crate::book_library::INSERT_EDITION_SQL@,
            seq![int_arg(title_id)] + crate::book_library::edition_field_args(e) + seq![
                text_arg(e.access_viewability@),
            ],
        ),
    ]
}

/// Every statement that storing a new book hands to SQLite, in order: the
/// title, the entry with its status, the work, each edition, the reader
/// state on the first edition, each source row, each provider failure,
/// each author, each provider link and each series.
pub open spec fn new_book_plan(
    import: BookImport,
    status: MediaLibraryStatus,
    failures: Seq<BookProviderFailure>,
    stored: StoredBook,
) -> Seq<StatementView> {
    let t = stored.title_id;
    let ids = stored.edition_ids@;
    seq![
        (
            INSERT_TITLE_SQL@,
            seq![
                text_arg(title_row(import).0),
                text_arg(title_row(import).1),
                text_arg(title_row(import).2),
                text_arg(title_row(import).3),
                text_arg(title_row(import).4),
            ],
        ),
        (INSERT_ENTRY_SQL@, seq![int_arg(t), text_arg(status.label())]),
        (INSERT_WORK_SQL@, work_args(t, import)),
    ] + steps(import.editions@.len(), |k: int| edition_step(t, import.editions@[k])) + seq![
        (
            INSERT_READER_SQL@,
            seq![int_arg(stored.entry_id), opt_int_arg(edition_id_at(ids, Some(0usize))), text_arg(first_format(import))],
        ),
    ] + steps(import.sources@.len(), |k: int| source_step(t, ids, import.sources@[k])) + steps(
        failures.len(),
        |k: int| failure_step(t, failures[k], stored.failures_inserted@[k]),
    ) + steps(import.authors@.len(), |k: int| author_step(t, import.authors@[k]@, k, stored.authors_chosen@[k]))
        + steps(import.links@.len(), |k: int| link_step(t, ids, import.links@[k], stored.links_inserted@[k]))
        + steps(import.series@.len(), |k: int| series_step(t, import.series@[k], k, stored.series_ids@[k]))
}

/// Stores a new book (an import with no problem) and records in `log`
/// exactly the statements of `new_book_plan`.
#[verifier::spinoff_prover]
#[verifier::rlimit(60)]
fn store_new_book(
    inner: &rusqlite::Connection,
    import: &BookImport,
    status: MediaLibraryStatus,
    provider_failures: &Vec<BookProviderFailure>,
    log: &mut Ghost<Seq<StatementView>>,
) -> (r: Result<StoredBook, MediaError>)
    requires
        import_problem(*import) is None,
    ensures
        r matches Err(e) ==> is_database_error(e),
        r matches Ok(stored) ==> final(log)@ == old(log)@ + new_book_plan(
            *import,
            status,
            provider_failures@,
            stored,
        ),
{
    let ghost start = log@;
    match run_logged(inner, &insert_title_statement(import), log) {
        Ok(_) => {},
        Err(e) => return Err(e),
    }
    let title_id = sql_last_insert_rowid(inner);
    match run_logged(inner, &insert_entry_statement(title_id, status), log) {
        Ok(_) => {},
        Err(e) => return Err(e),
    }
    let entry_id = sql_last_insert_rowid(inner);
    match run_logged(inner, &insert_work_statement(title_id, import), log) {
        Ok(_) => {},
        Err(e) => return Err(e),
    }
    let ghost head = log@;
    let ghost estep = |k: int| edition_step(title_id, import.editions@[k]);
    let mut edition_ids: Vec<i64> = Vec::new();
    let mut k: usize = 0;
    while k < import.editions.len()
        invariant
            k <= import.editions@.len(),
            estep == (|k: int| edition_step(title_id, import.editions@[k])),
            log@ == head + steps(k as nat, estep),
        decreases import.editions@.len() - k,
    {
        proof {
            lemma_steps_push(k as nat, estep);
        }
        match run_logged(inner, &insert_edition_statement(title_id, &import.editions[k]), log) {
            Ok(_) => edition_ids.push(sql_last_insert_rowid(inner)),
            Err(e) => return Err(e),
        }
        assert(log@ =~= head + steps(k as nat + 1, estep));
        k = k + 1;
    }
    let first_edition = edition_at(&edition_ids, Some(0));
    match run_logged(inner, &insert_reader_statement(entry_id, first_edition, import), log) {
        Ok(_) => {},
        Err(e) => return Err(e),
    }
    match insert_sources(inner, title_id, &edition_ids, import, log) {
        Ok(()) => {},
        Err(e) => return Err(e),
    }
    let failures_inserted = match record_provider_failures(inner, title_id, provider_failures, log) {
        Ok(f) => f,
        Err(e) => return Err(e),
    };
    let authors_chosen = match insert_authors(inner, title_id, &import.authors, log) {
        Ok(a) => a,
        Err(e) => return Err(e),
    };
    let links_inserted = match insert_provider_links(inner, title_id, &edition_ids, import, log) {
        Ok(l) => l,
        Err(e) => return Err(e),
    };
    let series_ids = match insert_series(inner, title_id, import, log) {
        Ok(ids) => ids,
        Err(e) => return Err(e),
    };
    let stored = StoredBook {
        title_id,
        entry_id,
        edition_ids,
        failures_inserted,
        authors_chosen,
        links_inserted,
        series_ids,
    };
    assert(log@ =~= start + new_book_plan(*import, status, provider_failures@, stored));
    Ok(stored)
}

impl<'a> BookRepository<'a> {
    /// Adds a provider's import to the library with the given status and
    /// gives the entry that holds it and the providers' warnings. An
    /// import with a problem is refused before anything is stored. A book
    /// already in the library (by a source's provider identity, else by an
    /// edition's ISBN; see `duplicate_of`) is not added again: the failures
    /// are recorded on it and its entry is given. Otherwise the statements
    /// above store the title, its entry, work, editions, reader state,
    /// source rows, failures, authors, links and series in one transaction.
    pub fn add_import(
        &self,
        import: &BookImport,
        status: MediaLibraryStatus,
        provider_failures: &Vec<BookProviderFailure>,
    ) -> (r: Result<BookImportOutcome, MediaError>)
        ensures
            import_problem(*import) matches Some(m) ==> (r matches Err(e) && e.kind
                == MediaErrorKind::Validation && e.message@ == m),
            r matches Ok(o) ==> string_views(o.provider_warnings@) == provider_warnings(
                provider_failures@,
            ),
            r matches Err(e) ==> import_problem(*import) is Some || database_or_not_found(
                e,
                "Book library entry was not found."@,
            ),
    {
        match validate_import(import) {
            Ok(()) => {},
            Err(e) => return Err(e),
        }
        let transaction = match sql_begin(self.database.connection()) {
            Ok(t) => t,
            Err(e) => return Err(MediaError::from_sql(&e)),
        };
        let inner = sql_in(&transaction);
        let mut log: Ghost<Seq<StatementView>> = Ghost(Seq::empty());
        let mut lookups: Vec<Option<i64>> = Vec::new();
        let mut i: usize = 0;
        while i < import.sources.len()
            invariant
                i <= import.sources@.len(),
                import_problem(*import) is None,
            decreases import.sources@.len() - i,
        {
            let s = &import.sources[i];
            match self.find_existing_candidate(s.source_key.as_str(), s.external_id.as_str(), "", "") {
                Ok(found) => {
                    lookups.push(found);
                    if found.is_some() {
                        break;
                    }
                },
                Err(e) => return Err(e),
            }
            i = i + 1;
        }
        let mut j: usize = 0;
        while j < import.editions.len() && duplicate_of(&lookups).is_none()
            invariant
                j <= import.editions@.len(),
                import_problem(*import) is None,
            decreases import.editions@.len() - j,
        {
            let e = &import.editions[j];
            match self.find_existing_candidate("", "", e.isbn_10.as_str(), e.isbn_13.as_str()) {
                Ok(found) => lookups.push(found),
                Err(x) => return Err(x),
            }
            j = j + 1;
        }
        let warnings = warnings_of(provider_failures);
        if let Some(entry_id) = duplicate_of(&lookups) {
            let title_id = match Self::book_title_id(inner, entry_id) {
                Ok(id) => id,
                Err(e) => return Err(e),
            };
            match record_provider_failures(inner, title_id, provider_failures, &mut log) {
                Ok(_) => {},
                Err(e) => return Err(e),
            }
            return match sql_commit(transaction) {
                Ok(()) => Ok(BookImportOutcome { entry_id, provider_warnings: warnings }),
                Err(e) => Err(MediaError::from_sql(&e)),
            };
        }
        let stored = match store_new_book(inner, import, status, provider_failures, &mut log) {
            Ok(stored) => stored,
            Err(e) => return Err(e),
        };
        let entry_id = stored.entry_id;
        match sql_commit(transaction) {
            Ok(()) => Ok(BookImportOutcome { entry_id, provider_warnings: warnings }),
            Err(e) => Err(MediaError::from_sql(&e)),
        }
    }
}


// ------------------------------------------------------------ refreshing

pub const REFRESH_TITLE_SQL: &'static str = "
            UPDATE obj_media_title SET
                title = CASE WHEN ?2 <> '' THEN ?2 ELSE title END,
                original_title = CASE WHEN ?2 <> '' THEN ?2 ELSE original_title END,
                overview = CASE WHEN ?3 <> '' THEN ?3 ELSE overview END,
                poster_path = CASE WHEN ?4 <> '' THEN ?4 ELSE poster_path END,
                metadata_refreshed_at = datetime('now','localtime'),
                updated_at = datetime('now','localtime')
            WHERE id = ?1 AND content_type = 'BOOK'
            ";

/// The refreshed title keeps each stored text the import leaves blank:
/// the statement binds the title, the description and the cover.
pub fn refresh_title_statement(title_id: i64, import: &BookImport) -> (r: SqlStatement)
    ensures
        statement_view(r) == (
            REFRESH_TITLE_SQL@,
            seq![
                int_arg(title_id),
                text_arg(import.title@),
                text_arg(import.description@),
                text_arg(import.canonical_cover_url@),
            ],
        ),
{
    let mut p: Vec<SqlParam> = Vec::new();
    p.push(int_param(title_id));
    p.push(text_param(import.title.as_str()));
    p.push(text_param(import.description.as_str()));
    p.push(text_param(import.canonical_cover_url.as_str()));
    let r = SqlStatement { sql: REFRESH_TITLE_SQL, params: p };
    assert(params_view(r.params@) =~= seq![
        int_arg(title_id),
        text_arg(import.title@),
        text_arg(import.description@),
        text_arg(import.canonical_cover_url@),
    ]);
    r
}

pub const REFRESH_WORK_SQL: &'static str = "
            UPDATE obj_media_book_work SET
                subtitle = CASE WHEN ?2 <> '' THEN ?2 ELSE subtitle END,
                primary_author_text = CASE WHEN ?3 <> '' THEN ?3 ELSE primary_author_text END,
                first_publish_year = COALESCE(?4, first_publish_year),
                subjects_json = CASE WHEN ?5 <> '[]' THEN ?5 ELSE subjects_json END,
                canonical_cover_url = CASE WHEN ?6 <> '' THEN ?6 ELSE canonical_cover_url END,
                community_rating = COALESCE(?7, community_rating),
                community_rating_count = COALESCE(?8, community_rating_count),
                metadata_refreshed_at = datetime('now','localtime'),
                updated_at = datetime('now','localtime')
            WHERE media_title_id = ?1
            ";

/// The refreshed work row: the same values a new work row gets, each
/// keeping the stored one where the import has none.
pub fn refresh_work_statement(title_id: i64, import: &BookImport) -> (r: SqlStatement)
    ensures
        statement_view(r) == (REFRESH_WORK_SQL@, work_args(title_id, *import)),
{
    let w = insert_work_statement(title_id, import);
    SqlStatement { sql: REFRESH_WORK_SQL, params: w.params }
}

pub const MARK_EDITIONS_ABSENT_SQL: &'static str = "
            UPDATE obj_media_book_edition SET is_present_in_source = 0
            WHERE media_title_id = ?1
              AND EXISTS (
                SELECT 1 FROM obj_media_book_source_record source
                WHERE source.edition_id=obj_media_book_edition.id
                  AND source.source_key <> 'manual'
              )
            ";

pub const FIND_EDITION_SQL: &'static str = "
                SELECT id FROM obj_media_book_edition
                WHERE media_title_id=?1 AND (
                    (?2 <> '' AND isbn_13=?2) OR (?3 <> '' AND isbn_10=?3) OR
                    (?2 = '' AND ?3 = '' AND title=?4 COLLATE NOCASE AND publisher=?5 COLLATE NOCASE
                        AND published_date=?6 AND format=?7)
                ) LIMIT 1
                ";

/// The stored edition an imported one is: the same ISBN-13, else the same
/// ISBN-10, else (with no ISBN) the same title, publisher, date and format.
pub open spec fn find_edition_args(title_id: i64, e: NormalizedBookEdition) -> Seq<(u8, i64, Seq<char>)> {
    seq![
        int_arg(title_id),
        text_arg(e.isbn_13@),
        text_arg(e.isbn_10@),
        text_arg(e.title@),
        text_arg(e.publisher@),
        text_arg(e.published_date@),
        text_arg(e.format.label()),
    ]
}

pub fn find_edition_statement(title_id: i64, e: &NormalizedBookEdition) -> (r: SqlStatement)
    ensures
        statement_view(r) == (FIND_EDITION_SQL@, find_edition_args(title_id, *e)),
{
    let mut p: Vec<SqlParam> = Vec::new();
    p.push(int_param(title_id));
    p.push(text_param(e.isbn_13.as_str()));
    p.push(text_param(e.isbn_10.as_str()));
    p.push(text_param(e.title.as_str()));
    p.push(text_param(e.publisher.as_str()));
    p.push(text_param(e.published_date.as_str()));
    p.push(text_param(e.format.as_str()));
    let r = SqlStatement { sql: FIND_EDITION_SQL, params: p };
    assert(params_view(r.params@) =~= find_edition_args(title_id, *e));
    r
}

pub const UPDATE_EDITION_SQL: &'static str = "
                UPDATE obj_media_book_edition SET
                    title=CASE WHEN ?2<>'' THEN ?2 ELSE title END,
                    subtitle=CASE WHEN ?3<>'' THEN ?3 ELSE subtitle END,
                    format=CASE WHEN ?4<>'UNKNOWN' THEN ?4 ELSE format END,
                    isbn_10=CASE WHEN ?5<>'' THEN ?5 ELSE isbn_10 END,
                    isbn_13=CASE WHEN ?6<>'' THEN ?6 ELSE isbn_13 END,
                    publisher=CASE WHEN ?7<>'' THEN ?7 ELSE publisher END,
                    published_date=CASE WHEN ?8<>'' THEN ?8 ELSE published_date END,
                    language=CASE WHEN ?9<>'' THEN ?9 ELSE language END,
                    page_count=COALESCE(?10,page_count), audio_duration_minutes=COALESCE(?11,audio_duration_minutes),
                    cover_url=CASE WHEN ?12<>'' THEN ?12 ELSE cover_url END,
                    is_ebook=CASE WHEN ?13=1 THEN 1 ELSE is_ebook END,
                    access_viewability=CASE WHEN ?14<>'' THEN ?14 ELSE access_viewability END,
                    is_present_in_source=1, metadata_refreshed_at=datetime('now','localtime'),
                    updated_at=datetime('now','localtime') WHERE id=?1
                ";

/// A stored edition takes the imported edition's values where it has them.
pub open spec fn update_edition_args(id: i64, e: NormalizedBookEdition) -> Seq<(u8, i64, Seq<char>)> {
    seq![
        int_arg(id),
        text_arg(e.title@),
        text_arg(e.subtitle@),
        text_arg(e.format.label()),
        text_arg(e.isbn_10@),
        text_arg(e.isbn_13@),
        text_arg(e.publisher@),
        text_arg(e.published_date@),
        text_arg(e.language@),
        opt_int_arg(e.page_count),
        opt_int_arg(e.audio_duration_minutes),
        text_arg(e.cover_url@),
        flag_arg(e.is_ebook),
        text_arg(e.access_viewability@),
    ]
}

pub fn update_edition_statement(id: i64, e: &NormalizedBookEdition) -> (r: SqlStatement)
    ensures
        statement_view(r) == (UPDATE_EDITION_SQL@, update_edition_args(id, *e)),
{
    let mut p: Vec<SqlParam> = Vec::new();
    p.push(int_param(id));
    p.push(text_param(e.title.as_str()));
    p.push(text_param(e.subtitle.as_str()));
    p.push(text_param(e.format.as_str()));
    p.push(text_param(e.isbn_10.as_str()));
    p.push(text_param(e.isbn_13.as_str()));
    p.push(text_param(e.publisher.as_str()));
    p.push(text_param(e.published_date.as_str()));
    p.push(text_param(e.language.as_str()));
    p.push(opt_int_param(e.page_count));
    p.push(opt_int_param(e.audio_duration_minutes));
    p.push(text_param(e.cover_url.as_str()));
    p.push(flag_param(e.is_ebook));
    p.push(text_param(e.access_viewability.as_str()));
    let r = SqlStatement { sql: UPDATE_EDITION_SQL, params: p };
    assert(params_view(r.params@) =~= update_edition_args(id, *e));
    r
}

/// Updates each imported edition that is already stored, inserts the
/// others, and gives the edition ids in the import's order.
/// The statement that stores an imported edition on refresh: the stored
/// edition it matches (`found`) is updated, or the edition is added.
pub open spec fn upsert_step(title_id: i64, e: NormalizedBookEdition, found: Option<i64>) -> Seq<StatementView> {
    match found {
        Some(id) => seq![(UPDATE_EDITION_SQL@, update_edition_args(id, e))],
        None => edition_step(title_id, e),
    }
}

/// Updates each imported edition that is already stored, inserts the
/// others, and gives the edition ids in the import's order, with what each
/// lookup found.
fn upsert_editions(
    connection: &rusqlite::Connection,
    title_id: i64,
    editions: &Vec<NormalizedBookEdition>,
    log: &mut Ghost<Seq<StatementView>>,
) -> (r: Result<(Vec<i64>, Ghost<Seq<Option<i64>>>), MediaError>)
    ensures
        r matches Err(e) ==> is_database_error(e),
        r matches Ok(res) ==> res.0@.len() == editions@.len() && res.1@.len() == editions@.len()
            && final(log)@ == old(log)@ + steps(
            editions@.len(),
            |k: int| upsert_step(title_id, editions@[k], res.1@[k]),
        ),
{
    let ghost start = log@;
    let mut found: Ghost<Seq<Option<i64>>> = Ghost(Seq::empty());
    let mut ids: Vec<i64> = Vec::new();
    let mut i: usize = 0;
    while i < editions.len()
        invariant
            i <= editions@.len(),
            ids@.len() == i,
            found@.len() == i,
            log@ == start + steps(i as nat, |k: int| upsert_step(title_id, editions@[k], found@[k])),
        decreases editions@.len() - i,
    {
        let ghost before = found@;
        let ghost before_log = log@;
        let e = &editions[i];
        let find = find_edition_statement(title_id, e);
        let existing = match sql_optional_i64(connection, find.sql, &find.params) {
            Ok(f) => f,
            Err(x) => return Err(MediaError::from_sql(&x)),
        };
        match existing {
            Some(id) => {
                match run_logged(connection, &update_edition_statement(id, e), log) {
                    Ok(_) => {},
                    Err(x) => return Err(x),
                }
                ids.push(id);
            },
            None => match run_logged(connection, &insert_edition_statement(title_id, e), log) {
                Ok(_) => ids.push(sql_last_insert_rowid(connection)),
                Err(x) => return Err(x),
            },
        }
        found = Ghost(before.push(existing));
        proof {
            let old_step = |k: int| upsert_step(title_id, editions@[k], before[k]);
            let new_step = |k: int| upsert_step(title_id, editions@[k], found@[k]);
            assert(before_log == start + steps(i as nat, old_step));
            assert(Seq::new(i as nat, old_step) =~= Seq::new(i as nat, new_step));
            assert(steps(i as nat, old_step) == steps(i as nat, new_step));
            lemma_steps_push(i as nat, new_step);
            assert(log@ =~= before_log + upsert_step(title_id, editions@[i as int], found@[i as int]));
            assert(log@ =~= start + steps(i as nat + 1, new_step));
        }
        i = i + 1;
    }
    Ok((ids, found))
}

pub const DELETE_PROVIDER_LINKS_SQL: &'static str = "DELETE FROM obj_media_book_link WHERE media_title_id = ?1 AND source_key = ?2 AND is_user_owned = 0";

pub fn delete_provider_links_statement(title_id: i64, source_key: &str) -> (r: SqlStatement)
    ensures
        statement_view(r) == (DELETE_PROVIDER_LINKS_SQL@, seq![int_arg(title_id), text_arg(source_key@)]),
{
    let mut p: Vec<SqlParam> = Vec::new();
    p.push(int_param(title_id));
    p.push(text_param(source_key));
    let r = SqlStatement { sql: DELETE_PROVIDER_LINKS_SQL, params: p };
    assert(params_view(r.params@) =~= seq![int_arg(title_id), text_arg(source_key@)]);
    r
}

/// Whether a source before position `i` has the same key as the one there.
pub open spec fn key_seen_earlier(sources: Seq<NormalizedBookSource>, i: int) -> bool {
    exists|j: int| 0 <= j < i && (#[trigger] sources[j]).source_key@ == sources[i].source_key@
}

pub fn source_key_seen_earlier(sources: &Vec<NormalizedBookSource>, i: usize) -> (r: bool)
    requires
        i < sources@.len(),
    ensures
        r == key_seen_earlier(sources@, i as int),
{
    let key = chars_of(sources[i].source_key.as_str());
    let mut j: usize = 0;
    while j < i
        invariant
            i < sources@.len(),
            j <= i,
            key@ == sources@[i as int].source_key@,
            forall|k: int| 0 <= k < j ==> (#[trigger] sources@[k]).source_key@ != key@,
        decreases i - j,
    {
        if chars_eq_str(&key, sources[j].source_key.as_str()) {
            return true;
        }
        j = j + 1;
    }
    false
}

/// Drops the provider-owned links of each source the import comes from,
/// once per source key; links a reader added stay.
/// The statement that drops a source's provider links, for the first
/// source with its key.
pub open spec fn unlink_step(title_id: i64, sources: Seq<NormalizedBookSource>, i: int) -> Seq<StatementView> {
    if key_seen_earlier(sources, i) {
        seq![]
    } else {
        seq![(DELETE_PROVIDER_LINKS_SQL@, seq![int_arg(title_id), text_arg(sources[i].source_key@)])]
    }
}

fn delete_provider_links(
    connection: &rusqlite::Connection,
    title_id: i64,
    sources: &Vec<NormalizedBookSource>,
    log: &mut Ghost<Seq<StatementView>>,
) -> (r: Result<(), MediaError>)
    ensures
        r matches Err(e) ==> is_database_error(e),
        r is Ok ==> final(log)@ == old(log)@ + steps(sources@.len(), |k: int| unlink_step(title_id, sources@, k)),
{
    let ghost start = log@;
    let ghost step = |k: int| unlink_step(title_id, sources@, k);
    let mut i: usize = 0;
    while i < sources.len()
        invariant
            i <= sources@.len(),
            step == (|k: int| unlink_step(title_id, sources@, k)),
            log@ == start + steps(i as nat, step),
        decreases sources@.len() - i,
    {
        proof {
            lemma_steps_push(i as nat, step);
        }
        if !source_key_seen_earlier(sources, i) {
            match run_logged(connection, &delete_provider_links_statement(title_id, sources[i].source_key.as_str()), log) {
                Ok(_) => {},
                Err(e) => return Err(e),
            }
        }
        assert(log@ =~= start + steps(i as nat + 1, step));
        i = i + 1;
    }
    Ok(())
}

/// What refreshing a stored book read back from the database (see the
/// `*_step` functions).
pub struct RefreshedBook {
    pub edition_ids: Vec<i64>,
    pub editions_found: Ghost<Seq<Option<i64>>>,
    pub failures_inserted: Ghost<Seq<bool>>,
    pub authors_chosen: Ghost<Seq<(bool, i64)>>,
    pub links_inserted: Ghost<Seq<bool>>,
    pub series_ids: Ghost<Seq<i64>>,
}

/// Every statement that refreshing a stored book hands to SQLite, in
/// order: the title, the work, editions marked absent, each edition updated
/// or added, each source row, each provider failure, each author, the
/// provider links of each source key dropped, each provider link and each
/// series.
pub open spec fn refresh_plan(
    title_id: i64,
    import: BookImport,
    failures: Seq<BookProviderFailure>,
    done: RefreshedBook,
) -> Seq<StatementView> {
    let ids = done.edition_ids@;
    seq![
        (
            REFRESH_TITLE_SQL@,
            seq![
                int_arg(title_id),
                text_arg(import.title@),
                text_arg(import.description@),
                text_arg(import.canonical_cover_url@),
            ],
        ),
        (REFRESH_WORK_SQL@, work_args(title_id, import)),
        (MARK_EDITIONS_ABSENT_SQL@, seq![int_arg(title_id)]),
    ] + steps(import.editions@.len(), |k: int| upsert_step(title_id, import.editions@[k], done.editions_found@[k]))
        + steps(import.sources@.len(), |k: int| source_step(title_id, ids, import.sources@[k])) + steps(
        failures.len(),
        |k: int| failure_step(title_id, failures[k], done.failures_inserted@[k]),
    ) + steps(import.authors@.len(), |k: int| author_step(title_id, import.authors@[k]@, k, done.authors_chosen@[k]))
        + steps(import.sources@.len(), |k: int| unlink_step(title_id, import.sources@, k)) + steps(
        import.links@.len(),
        |k: int| link_step(title_id, ids, import.links@[k], done.links_inserted@[k]),
    ) + steps(import.series@.len(), |k: int| series_step(title_id, import.series@[k], k, done.series_ids@[k]))
}

/// Refreshes a stored book (an import with no problem) and records in
/// `log` exactly the statements of `refresh_plan`.
#[verifier::spinoff_prover]
#[verifier::rlimit(60)]
fn refresh_stored_book(
    inner: &rusqlite::Connection,
    title_id: i64,
    import: &BookImport,
    provider_failures: &Vec<BookProviderFailure>,
    log: &mut Ghost<Seq<StatementView>>,
) -> (r: Result<RefreshedBook, MediaError>)
    requires
        import_problem(*import) is None,
    ensures
        r matches Err(e) ==> is_database_error(e),
        r matches Ok(done) ==> final(log)@ == old(log)@ + refresh_plan(title_id, *import, provider_failures@, done),
{
    let ghost start = log@;
    match run_logged(inner, &refresh_title_statement(title_id, import), log) {
        Ok(_) => {},
        Err(e) => return Err(e),
    }
    match run_logged(inner, &refresh_work_statement(title_id, import), log) {
        Ok(_) => {},
        Err(e) => return Err(e),
    }
    match run_logged(inner, &int_statement(MARK_EDITIONS_ABSENT_SQL, title_id), log) {
        Ok(_) => {},
        Err(e) => return Err(e),
    }
    let (edition_ids, editions_found) = match upsert_editions(inner, title_id, &import.editions, log) {
        Ok(res) => res,
        Err(e) => return Err(e),
    };
    match insert_sources(inner, title_id, &edition_ids, import, log) {
        Ok(()) => {},
        Err(e) => return Err(e),
    }
    let failures_inserted = match record_provider_failures(inner, title_id, provider_failures, log) {
        Ok(f) => f,
        Err(e) => return Err(e),
    };
    let authors_chosen = match insert_authors(inner, title_id, &import.authors, log) {
        Ok(a) => a,
        Err(e) => return Err(e),
    };
    match delete_provider_links(inner, title_id, &import.sources, log) {
        Ok(()) => {},
        Err(e) => return Err(e),
    }
    let links_inserted = match insert_provider_links(inner, title_id, &edition_ids, import, log) {
        Ok(l) => l,
        Err(e) => return Err(e),
    };
    let series_ids = match insert_series(inner, title_id, import, log) {
        Ok(ids) => ids,
        Err(e) => return Err(e),
    };
    let done = RefreshedBook {
        edition_ids,
        editions_found,
        failures_inserted,
        authors_chosen,
        links_inserted,
        series_ids,
    };
    assert(log@ =~= start + refresh_plan(title_id, *import, provider_failures@, done));
    Ok(done)
}

impl<'a> BookRepository<'a> {
    /// Refreshes a stored book from a provider import in one transaction:
    /// the title and work keep what the import leaves blank, editions are
    /// marked absent and then updated or added, sources, failures, authors,
    /// links and series are stored as for a new book, and the provider
    /// warnings are handed back.
    pub fn refresh_import(
        &self,
        entry_id: i64,
        import: &BookImport,
        provider_failures: &Vec<BookProviderFailure>,
    ) -> (r: Result<BookImportOutcome, MediaError>)
        ensures
            import_problem(*import) matches Some(m) ==> (r matches Err(e) && e.kind
                == MediaErrorKind::Validation && e.message@ == m),
            r matches Ok(o) ==> o.entry_id == entry_id && string_views(o.provider_warnings@)
                == provider_warnings(provider_failures@),
            r matches Err(e) ==> import_problem(*import) is Some || database_or_not_found(
                e,
                "Book library entry was not found."@,
            ),
    {
        match validate_import(import) {
            Ok(()) => {},
            Err(e) => return Err(e),
        }
        let transaction = match sql_begin(self.database.connection()) {
            Ok(t) => t,
            Err(e) => return Err(MediaError::from_sql(&e)),
        };
        let inner = sql_in(&transaction);
        let mut log: Ghost<Seq<StatementView>> = Ghost(Seq::empty());
        let title_id = match Self::book_title_id(inner, entry_id) {
            Ok(id) => id,
            Err(e) => return Err(e),
        };
        match refresh_stored_book(inner, title_id, import, provider_failures, &mut log) {
            Ok(_) => {},
            Err(e) => return Err(e),
        }
        let warnings = warnings_of(provider_failures);
        match sql_commit(transaction) {
            Ok(()) => Ok(BookImportOutcome { entry_id, provider_warnings: warnings }),
            Err(e) => Err(MediaError::from_sql(&e)),
        }
    }
}

impl<'a> BookRepository<'a> {
    /// Finishes a refresh once the providers have answered for the entry's
    /// source `source_key`: an import is stored with `refresh_import`; a
    /// failed fetch is recorded on that source (kind, colon, message) and
    /// its error handed back unchanged, whether or not recording it worked.
    pub fn apply_refresh(
        &self,
        entry_id: i64,
        source_key: &str,
        fetched: Result<(BookImport, Vec<BookProviderFailure>), MediaError>,
    ) -> (r: Result<BookImportOutcome, MediaError>)
        ensures
            fetched matches Err(e) ==> r == Err::<BookImportOutcome, MediaError>(e),
            fetched matches Ok(f) ==> (import_problem(f.0) matches Some(m) ==> (r matches Err(e)
                && e.kind == MediaErrorKind::Validation && e.message@ == m)),
            fetched matches Ok(f) ==> (r matches Ok(o) ==> o.entry_id == entry_id && string_views(
                o.provider_warnings@,
            ) == provider_warnings(f.1@)),
    {
        match fetched {
            Ok((import, failures)) => self.refresh_import(entry_id, &import, &failures),
            Err(error) => {
                let message = error.to_display_string();
                let _ = self.mark_provider_failure(entry_id, source_key, message.as_str());
                Err(error)
            },
        }
    }
}

impl<'a> crate::book_service::BookCatalogService<'a> {
    /// Finishes adding a catalogue book once the providers have answered:
    /// their error is handed back unchanged; an import (with the sources
    /// that failed) is added with the status (`BookRepository::add_import`).
    pub fn apply_add(
        &self,
        fetched: Result<(BookImport, Vec<BookProviderFailure>), MediaError>,
        status: MediaLibraryStatus,
    ) -> (r: Result<BookImportOutcome, MediaError>)
        ensures
            fetched matches Err(e) ==> r == Err::<BookImportOutcome, MediaError>(e),
            fetched matches Ok(f) ==> (import_problem(f.0) matches Some(m) ==> (r matches Err(e) && e.kind
                == MediaErrorKind::Validation && e.message@ == m)),
            fetched matches Ok(f) ==> (r matches Ok(o) ==> string_views(o.provider_warnings@) == provider_warnings(
                f.1@,
            )),
    {
        match fetched {
            Ok((import, failures)) => self.repository.add_import(&import, status, &failures),
            Err(e) => Err(e),
        }
    }

    /// Finishes a refresh of a stored book once the providers have
    /// answered (`BookRepository::apply_refresh`).
    pub fn apply_refresh(
        &self,
        entry_id: i64,
        source_key: &str,
        fetched: Result<(BookImport, Vec<BookProviderFailure>), MediaError>,
    ) -> (r: Result<BookImportOutcome, MediaError>)
        ensures
            fetched matches Err(e) ==> r == Err::<BookImportOutcome, MediaError>(e),
            fetched matches Ok(f) ==> (r matches Ok(o) ==> o.entry_id == entry_id),
    {
        self.repository.apply_refresh(entry_id, source_key, fetched)
    }
}

} // verus!
