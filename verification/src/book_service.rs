//! The book library's repository lookups and services.
use crate::books::{
    normalize_isbn, spec_normalize_isbn, BookFormat, BookLibraryFilter, BookOwnershipStatus,
    BookProviderStatus,
};
use crate::media::MediaLibraryStatus;
use crate::media_query::direction_word;
use crate::text::{
    chars_eq_str, contains, contains_exec, extend_chars, lower_ascii, lower_ascii_chars,
    upper_ascii, upper_ascii_chars,
};
use crate::database::{
    is_database_error, lookup_outcome, sql_optional_i64, sql_optional_text, sql_optional_text_pair, AppDatabase,
    SqlParam,
};
use crate::media::{http_url_error, validate_http_url, MediaError, MediaErrorKind};
use crate::media_repository::database_or_not_found;
use crate::text::{chars_of, string_of, trim, trim_chars};
use crate::media_query::text_arg;
use crate::statements::{int_statement, statement_view, text_pair_statement, SqlStatement};
use vstd::prelude::*;

verus! {

/// An ISBN to look up by: the normalised ISBN if it has the expected
/// length, else nothing (which matches no edition).
pub open spec fn lookup_isbn(value: Seq<char>, length: nat) -> Seq<char> {
    match spec_normalize_isbn(value) {
        Some(n) => if n.len() == length {
            n
        } else {
            seq![]
        },
        None => seq![],
    }
}

pub const FIND_BY_IDENTITY_SQL: &'static str = "SELECT entry.id FROM obj_media_book_source_record source JOIN obj_media_library_entry entry ON entry.media_title_id=source.media_title_id WHERE source.source_key=?1 AND source.external_id=?2 LIMIT 1";

pub const FIND_BY_ISBN_SQL: &'static str = "SELECT entry.id FROM obj_media_book_edition edition JOIN obj_media_library_entry entry ON entry.media_title_id=edition.media_title_id WHERE (?1 <> '' AND edition.isbn_13=?1) OR (?2 <> '' AND edition.isbn_10=?2) LIMIT 1";

pub const BOOK_IDENTITY_SQL: &'static str = "SELECT source.source_key, source.external_id FROM obj_media_book_source_record source JOIN obj_media_library_entry entry ON entry.media_title_id=source.media_title_id WHERE entry.id=?1 AND source.source_key IN ('google_books','open_library') ORDER BY CASE source.source_key WHEN 'google_books' THEN 1 ELSE 2 END, CASE source.entity_type WHEN 'EDITION' THEN 1 ELSE 2 END LIMIT 1";

/// The query for the entry of a book with this provider identity.
pub fn identity_lookup_statement(source_key: &str, external_id: &str) -> (r: SqlStatement)
    ensures
        statement_view(r) == (FIND_BY_IDENTITY_SQL@, seq![text_arg(source_key@), text_arg(external_id@)]),
{
    text_pair_statement(FIND_BY_IDENTITY_SQL, string_of(&chars_of(source_key)), string_of(&chars_of(external_id)))
}

/// The query for the entry of a book with an edition of this ISBN-13 or
/// ISBN-10 (each normalised; an empty one matches nothing).
pub fn isbn_lookup_statement(isbn_10: &str, isbn_13: &str) -> (r: SqlStatement)
    ensures
        statement_view(r) == (
            FIND_BY_ISBN_SQL@,
            seq![text_arg(lookup_isbn(isbn_13@, 13)), text_arg(lookup_isbn(isbn_10@, 10))],
        ),
{
    let (thirteen, ten) = isbn_lookup_keys(isbn_10, isbn_13);
    text_pair_statement(FIND_BY_ISBN_SQL, thirteen, ten)
}

/// The ISBN-13 and ISBN-10 that a catalog result is looked up by.
pub fn isbn_lookup_keys(isbn_10: &str, isbn_13: &str) -> (r: (String, String))
    ensures
        r.0@ == lookup_isbn(isbn_13@, 13),
        r.1@ == lookup_isbn(isbn_10@, 10),
{
    let thirteen = match normalize_isbn(isbn_13) {
        Some(n) => if n.as_str().unicode_len() == 13 {
            n
        } else {
            String::new()
        },
        None => String::new(),
    };
    let ten = match normalize_isbn(isbn_10) {
        Some(n) => if n.as_str().unicode_len() == 10 {
            n
        } else {
            String::new()
        },
        None => String::new(),
    };
    (thirteen, ten)
}

pub struct BookRepository<'a> {
    pub database: &'a AppDatabase,
}

impl<'a> BookRepository<'a> {
    pub fn new(database: &'a AppDatabase) -> (r: BookRepository<'a>)
        ensures
            r.database == database,
    {
        BookRepository { database }
    }

    /// The library entry that already holds a book: by provider identity
    /// first (`identity_lookup_statement`), else by ISBN-13 or ISBN-10
    /// (`isbn_lookup_statement`).
    pub fn find_existing_candidate(
        &self,
        source_key: &str,
        external_id: &str,
        isbn_10: &str,
        isbn_13: &str,
    ) -> (r: Result<Option<i64>, MediaError>)
        ensures
            r matches Err(e) ==> is_database_error(e),
    {
        let connection = self.database.connection();
        let by_identity = identity_lookup_statement(source_key, external_id);
        match sql_optional_i64(connection, by_identity.sql, &by_identity.params) {
            Ok(Some(id)) => return Ok(Some(id)),
            Ok(None) => {},
            Err(e) => return Err(MediaError::from_sql(&e)),
        }
        let by_isbn = isbn_lookup_statement(isbn_10, isbn_13);
        match sql_optional_i64(connection, by_isbn.sql, &by_isbn.params) {
            Ok(found) => Ok(found),
            Err(e) => Err(MediaError::from_sql(&e)),
        }
    }

    /// The provider identity a book entry can be refreshed from: Google
    /// Books before Open Library, editions before works.
    pub fn source_identity_for_entry(&self, entry_id: i64) -> (r: Result<(String, String), MediaError>)
        ensures
            r matches Err(e) ==> is_database_error(e) || (e.kind == MediaErrorKind::Validation
                && e.message@ == "This manual book has no provider identity to refresh."@),
    {
        let query = int_statement(BOOK_IDENTITY_SQL, entry_id);
        let found = sql_optional_text_pair(self.database.connection(), query.sql, &query.params);
        lookup_outcome(
            found,
            MediaError::validation("This manual book has no provider identity to refresh."),
        )
    }

    /// The title of a book entry.
    pub(crate) fn book_title_id(connection: &rusqlite::Connection, entry_id: i64) -> (r: Result<i64, MediaError>)
        ensures
            r matches Err(e) ==> database_or_not_found(e, "Book library entry was not found."@),
    {
        let mut params: Vec<SqlParam> = Vec::new();
        params.push(SqlParam::Integer(entry_id));
        let found = sql_optional_i64(
            connection,
            "SELECT title.id FROM obj_media_library_entry entry JOIN obj_media_title title ON title.id=entry.media_title_id WHERE entry.id=?1 AND title.content_type='BOOK'",
            &params,
        );
        lookup_outcome(found, MediaError::not_found("Book library entry was not found."))
    }

    /// The URL of one of a book's links, checked as an http(s) URL.
    pub fn resolve_link(&self, entry_id: i64, link_id: i64) -> (r: Result<String, MediaError>)
        ensures
            r matches Ok(u) ==> http_url_error(u@) is None,
            r matches Err(e) ==> database_or_not_found(e, "Book library entry was not found."@)
                || database_or_not_found(e, "Book link was not found."@) || e.kind
                == MediaErrorKind::Validation,
    {
        let connection = self.database.connection();
        let title_id = match Self::book_title_id(connection, entry_id) {
            Ok(id) => id,
            Err(e) => return Err(e),
        };
        let mut params: Vec<SqlParam> = Vec::new();
        params.push(SqlParam::Integer(link_id));
        params.push(SqlParam::Integer(title_id));
        let url = match lookup_outcome(
            sql_optional_text(
            connection,
            "SELECT url FROM obj_media_book_link WHERE id=?1 AND media_title_id=?2",
            &params,
        ),
            MediaError::not_found("Book link was not found."),
        ) {
            Ok(v) => v,
            Err(e) => return Err(e),
        };
        let r = validate_http_url(url.as_str());
        proof {
            if r is Ok {
                crate::media::validated_url_is_stable(url@);
            }
        }
        r
    }
}

pub struct BookCatalogService<'a> {
    pub repository: BookRepository<'a>,
}

/// Whether an environment value is set to something non-blank.
pub open spec fn configured(value: Option<String>) -> bool {
    match value {
        Some(v) => trim(v@).len() > 0,
        None => false,
    }
}

fn is_configured(value: &Option<String>) -> (r: bool)
    ensures
        r == configured(*value),
{
    match value {
        Some(v) => trim_chars(&chars_of(v.as_str())).len() > 0,
        None => false,
    }
}

impl<'a> BookCatalogService<'a> {
    pub fn new(database: &'a AppDatabase) -> (r: BookCatalogService<'a>)
        ensures
            r.repository.database == database,
    {
        BookCatalogService { repository: BookRepository::new(database) }
    }

    /// Which providers are configured, given the values of
    /// `GOOGLE_BOOKS_API_KEY`, `OPEN_LIBRARY_CONTACT_EMAIL` and
    /// `HARDCOVER_API_TOKEN`.
    pub fn provider_status(
        &self,
        google_books_api_key: Option<String>,
        open_library_contact_email: Option<String>,
        hardcover_api_token: Option<String>,
    ) -> (r: BookProviderStatus)
        ensures
            r.google_books_configured == configured(google_books_api_key),
            r.open_library_contact_configured == configured(open_library_contact_email),
            r.hardcover_configured == configured(hardcover_api_token),
    {
        BookProviderStatus {
            google_books_configured: is_configured(&google_books_api_key),
            open_library_contact_configured: is_configured(&open_library_contact_email),
            hardcover_configured: is_configured(&hardcover_api_token),
        }
    }
}

pub struct BookLibraryService<'a> {
    pub repository: BookRepository<'a>,
}

impl<'a> BookLibraryService<'a> {
    pub fn new(database: &'a AppDatabase) -> (r: BookLibraryService<'a>)
        ensures
            r.repository.database == database,
    {
        BookLibraryService { repository: BookRepository::new(database) }
    }

    pub fn resolve_link(&self, entry_id: i64, link_id: i64) -> (r: Result<String, MediaError>)
        ensures
            r matches Ok(u) ==> http_url_error(u@) is None,
            r matches Err(e) ==> database_or_not_found(e, "Book library entry was not found."@)
                || database_or_not_found(e, "Book link was not found."@) || e.kind
                == MediaErrorKind::Validation,
    {
        self.repository.resolve_link(entry_id, link_id)
    }
}

pub struct BookProgressService<'a> {
    pub repository: BookRepository<'a>,
}

impl<'a> BookProgressService<'a> {
    pub fn new(database: &'a AppDatabase) -> (r: BookProgressService<'a>)
        ensures
            r.repository.database == database,
    {
        BookProgressService { repository: BookRepository::new(database) }
    }
}


// ------------------------------------------------------------ library list

/// The `ORDER BY` terms of the book list for a sort key (trimmed, any ASCII
/// case); unknown keys sort by the time the entry was added.
pub open spec fn book_order_terms(sort: Seq<char>, direction: Seq<char>) -> Seq<char> {
    let key = upper_ascii(trim(sort));
    let d = direction_word(direction);
    if key == "TITLE"@ {
        "title.title COLLATE NOCASE "@ + d
    } else if key == "AUTHOR"@ {
        "work.primary_author_text COLLATE NOCASE "@ + d
    } else if key == "PROGRESS"@ {
        "reader.last_progress_at "@ + d
    } else if key == "RECENTLY_READ"@ {
        "entry.completed_at "@ + d
    } else if key == "PUBLICATION_DATE"@ {
        "work.first_publish_year "@ + d
    } else if key == "READ_NEXT"@ {
        "reader.reading_queue_position IS NULL, reader.reading_queue_position"@
    } else if key == "PRIORITY"@ {
        "entry.priority "@ + d
    } else {
        "entry.added_at "@ + d
    }
}

pub fn book_order_terms_chars(sort: &str, direction: &str) -> (r: Vec<char>)
    ensures
        r@ == book_order_terms(sort@, direction@),
{
    let key = upper_ascii_chars(&trim_chars(&chars_of(sort)));
    let l = lower_ascii_chars(&chars_of(direction));
    let d = if chars_eq_str(&l, "asc") {
        chars_of("ASC")
    } else {
        chars_of("DESC")
    };
    let mut r: Vec<char>;
    if chars_eq_str(&key, "TITLE") {
        r = chars_of("title.title COLLATE NOCASE ");
    } else if chars_eq_str(&key, "AUTHOR") {
        r = chars_of("work.primary_author_text COLLATE NOCASE ");
    } else if chars_eq_str(&key, "PROGRESS") {
        r = chars_of("reader.last_progress_at ");
    } else if chars_eq_str(&key, "RECENTLY_READ") {
        r = chars_of("entry.completed_at ");
    } else if chars_eq_str(&key, "PUBLICATION_DATE") {
        r = chars_of("work.first_publish_year ");
    } else if chars_eq_str(&key, "READ_NEXT") {
        return chars_of("reader.reading_queue_position IS NULL, reader.reading_queue_position");
    } else if chars_eq_str(&key, "PRIORITY") {
        r = chars_of("entry.priority ");
    } else {
        r = chars_of("entry.added_at ");
    }
    extend_chars(&mut r, &d);
    r
}

/// What the book list's filters read of an item.
pub struct BookListFacts {
    pub title: String,
    pub subtitle: String,
    pub primary_author_text: String,
    pub notes: String,
    pub library_status: MediaLibraryStatus,
    pub ownership_status: BookOwnershipStatus,
    pub preferred_format: BookFormat,
    pub is_favorite: bool,
    pub is_read_next: bool,
}

/// An item passes the list's field filters: the search text (trimmed,
/// ASCII lower-cased) occurs in its title, subtitle, authors or notes; the
/// author text occurs in its authors; and each given status, ownership,
/// format, favourite and read-next choice is the item's.
pub open spec fn book_matches(f: BookLibraryFilter, item: BookListFacts) -> bool {
    let q = lower_ascii(trim(f.query@));
    let aq = lower_ascii(trim(f.author_query@));
    &&& (q.len() == 0 || contains(lower_ascii(item.title@), q) || contains(
        lower_ascii(item.subtitle@),
        q,
    ) || contains(lower_ascii(item.primary_author_text@), q) || contains(lower_ascii(item.notes@), q))
    &&& (aq.len() == 0 || contains(lower_ascii(item.primary_author_text@), aq))
    &&& (f.library_status matches Some(s) ==> item.library_status == s)
    &&& (f.ownership_status matches Some(o) ==> item.ownership_status == o)
    &&& (f.preferred_format matches Some(p) ==> item.preferred_format == p)
    &&& (f.is_favorite matches Some(b) ==> item.is_favorite == b)
    &&& (f.is_read_next matches Some(b) ==> item.is_read_next == b)
}

fn lower_chars_of(s: &str) -> (r: Vec<char>)
    ensures
        r@ == lower_ascii(s@),
{
    lower_ascii_chars(&chars_of(s))
}

pub fn book_matches_filter(filter: &BookLibraryFilter, item: &BookListFacts) -> (r: bool)
    ensures
        r == book_matches(*filter, *item),
{
    let q = lower_ascii_chars(&trim_chars(&chars_of(filter.query.as_str())));
    let aq = lower_ascii_chars(&trim_chars(&chars_of(filter.author_query.as_str())));
    let author = lower_chars_of(item.primary_author_text.as_str());
    let text_ok = q.len() == 0 || contains_exec(&lower_chars_of(item.title.as_str()), &q)
        || contains_exec(&lower_chars_of(item.subtitle.as_str()), &q) || contains_exec(&author, &q)
        || contains_exec(&lower_chars_of(item.notes.as_str()), &q);
    let author_ok = aq.len() == 0 || contains_exec(&author, &aq);
    let status_ok = match filter.library_status {
        Some(s) => item.library_status == s,
        None => true,
    };
    let ownership_ok = match filter.ownership_status {
        Some(o) => item.ownership_status == o,
        None => true,
    };
    let format_ok = match filter.preferred_format {
        Some(p) => item.preferred_format == p,
        None => true,
    };
    let favorite_ok = match filter.is_favorite {
        Some(b) => item.is_favorite == b,
        None => true,
    };
    let queued_ok = match filter.is_read_next {
        Some(b) => item.is_read_next == b,
        None => true,
    };
    text_ok && author_ok && status_ok && ownership_ok && format_ok && favorite_ok && queued_ok
}

} // verus!
