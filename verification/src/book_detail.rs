//! A book in full: its list item, editions, authors, links, series,
//! source rows, subjects and tags, read back from the library.
use crate::book_list::{book_item_from_raw, book_row_from_cells, BookLibraryItem, BOOK_ITEM_SELECT};
use crate::book_service::BookRepository;
use crate::books::{
    BookAuthorRecord, BookEditionRecord, BookFormat, BookLinkRecord, BookSourceRecord,
};
use crate::database::{
    cell_int, cell_opt_int, cell_text, int_cell, is_database_error, opt_int_cell, row_shape_error,
    sql_cell_rows, sql_tag_rows, text_cell, SqlCell, SqlParam,
};
use crate::json::{parse_json, JsonValue};
use crate::media::{MediaError, MediaErrorKind, MediaTagRecord};
use crate::media_repository::{database_or_not_found, tag_records};
use crate::merge::string_views;
use crate::statements::int_statement;
use crate::text::{chars_eq_str, chars_of, extend_str, string_of};
use vstd::prelude::*;

verus! {

pub const BOOK_EDITIONS_SQL: &'static str = "
        SELECT id,title,subtitle,format,isbn_10,isbn_13,publisher,published_date,language,
               page_count,audio_duration_minutes,cover_url,is_ebook,access_viewability,is_present_in_source
        FROM obj_media_book_edition WHERE media_title_id=?1
        ORDER BY is_present_in_source DESC,published_date DESC,id
        ";

pub const EDITION_SOURCE_KEYS_SQL: &'static str = "SELECT DISTINCT source_key FROM obj_media_book_source_record
         WHERE edition_id=?1 ORDER BY source_key";

pub const BOOK_AUTHORS_SQL: &'static str = "
        SELECT author.id,author.name,mapping.role,mapping.position
        FROM n2n_media_book_work_author mapping
        JOIN obj_media_book_author author ON author.id=mapping.author_id
        WHERE mapping.media_title_id=?1 ORDER BY mapping.position,author.name COLLATE NOCASE
        ";

pub const BOOK_LINKS_SQL: &'static str = "
        SELECT id,edition_id,source_key,link_type,url,region_code,is_user_owned,is_preferred,refreshed_at
        FROM obj_media_book_link WHERE media_title_id=?1
        ORDER BY is_preferred DESC,is_user_owned DESC,
          CASE link_type WHEN 'READ' THEN 1 WHEN 'BORROW' THEN 2 WHEN 'PREVIEW' THEN 3 WHEN 'BUY' THEN 4 ELSE 5 END,id
        ";

/// The series of a title; the sort value (column 3) is a real number and
/// is not read.
pub const BOOK_SERIES_SQL: &'static str = "
        SELECT member.id,series.name,member.position_text,member.position_sort,
               member.is_primary,member.source_key,member.is_user_override
        FROM obj_media_book_series_member member
        JOIN obj_media_book_series series ON series.id=member.series_id
        WHERE member.media_title_id=?1
        ORDER BY member.is_user_override DESC,member.is_primary DESC,member.position_sort,series.name
        ";

pub const BOOK_SOURCES_SQL: &'static str = "
        SELECT source_key,entity_type,external_id,source_url,refreshed_at,last_refresh_status,last_refresh_error
        FROM obj_media_book_source_record WHERE media_title_id=?1 ORDER BY source_key,entity_type
        ";

pub const BOOK_TAGS_SQL: &'static str = "
        SELECT tag.id,tag.name,tag.created_at,tag.updated_at
        FROM obj_media_tag tag
        JOIN n2n_media_library_entry_tag mapping ON mapping.media_tag_id=tag.id
        WHERE mapping.media_library_entry_id=?1
        ORDER BY tag.name COLLATE NOCASE
        ";

/// The work's subjects (as JSON) and ratings count; the community rating is
/// a real number and is not read.
pub const BOOK_WORK_SQL: &'static str = "SELECT subjects_json, community_rating_count FROM obj_media_book_work WHERE media_title_id = ?1";

/// A series membership of a book.
#[derive(Clone, Debug)]
pub struct BookSeriesRecord {
    pub id: i64,
    pub name: String,
    pub position_text: String,
    pub is_primary: bool,
    pub source_key: String,
    pub is_user_override: bool,
}

#[derive(Clone, Debug)]
pub struct RawEditionRow {
    pub id: i64,
    pub title: String,
    pub subtitle: String,
    pub format: String,
    pub isbn_10: String,
    pub isbn_13: String,
    pub publisher: String,
    pub published_date: String,
    pub language: String,
    pub page_count: Option<i64>,
    pub audio_duration_minutes: Option<i64>,
    pub cover_url: String,
    pub is_ebook: bool,
    pub access_viewability: String,
    pub is_present_in_source: bool,
}

pub open spec fn edition_cells_fit(c: Seq<SqlCell>) -> bool {
    &&& c.len() >= 15
    &&& cell_int(c[0]) is Some
    &&& cell_text(c[1]) is Some
    &&& cell_text(c[2]) is Some
    &&& cell_text(c[3]) is Some
    &&& cell_text(c[4]) is Some
    &&& cell_text(c[5]) is Some
    &&& cell_text(c[6]) is Some
    &&& cell_text(c[7]) is Some
    &&& cell_text(c[8]) is Some
    &&& cell_opt_int(c[9]) is Some
    &&& cell_opt_int(c[10]) is Some
    &&& cell_text(c[11]) is Some
    &&& cell_int(c[12]) is Some
    &&& cell_text(c[13]) is Some
    &&& cell_int(c[14]) is Some
}

pub open spec fn edition_row_of_cells(row: RawEditionRow, c: Seq<SqlCell>) -> bool {
    &&& c.len() >= 15
    &&& cell_int(c[0]) == Some(row.id)
    &&& cell_text(c[1]) == Some(row.title@)
    &&& cell_text(c[2]) == Some(row.subtitle@)
    &&& cell_text(c[3]) == Some(row.format@)
    &&& cell_text(c[4]) == Some(row.isbn_10@)
    &&& cell_text(c[5]) == Some(row.isbn_13@)
    &&& cell_text(c[6]) == Some(row.publisher@)
    &&& cell_text(c[7]) == Some(row.published_date@)
    &&& cell_text(c[8]) == Some(row.language@)
    &&& cell_opt_int(c[9]) == Some(row.page_count)
    &&& cell_opt_int(c[10]) == Some(row.audio_duration_minutes)
    &&& cell_text(c[11]) == Some(row.cover_url@)
    &&& cell_int(c[12]) matches Some(v) && row.is_ebook == (v != 0)
    &&& cell_text(c[13]) == Some(row.access_viewability@)
    &&& cell_int(c[14]) matches Some(v) && row.is_present_in_source == (v != 0)
}

pub fn edition_row_from_cells(cells: &Vec<SqlCell>) -> (r: Option<RawEditionRow>)
    ensures
        r is Some <==> edition_cells_fit(cells@),
        r matches Some(row) ==> edition_row_of_cells(row, cells@),
{
    if cells.len() < 15 {
        return None;
    }
    let id = match int_cell(cells, 0) {
        Some(v) => v,
        None => return None,
    };
    let title = match text_cell(cells, 1) {
        Some(v) => v,
        None => return None,
    };
    let subtitle = match text_cell(cells, 2) {
        Some(v) => v,
        None => return None,
    };
    let format = match text_cell(cells, 3) {
        Some(v) => v,
        None => return None,
    };
    let isbn_10 = match text_cell(cells, 4) {
        Some(v) => v,
        None => return None,
    };
    let isbn_13 = match text_cell(cells, 5) {
        Some(v) => v,
        None => return None,
    };
    let publisher = match text_cell(cells, 6) {
        Some(v) => v,
        None => return None,
    };
    let published_date = match text_cell(cells, 7) {
        Some(v) => v,
        None => return None,
    };
    let language = match text_cell(cells, 8) {
        Some(v) => v,
        None => return None,
    };
    let page_count = match opt_int_cell(cells, 9) {
        Some(v) => v,
        None => return None,
    };
    let audio_duration_minutes = match opt_int_cell(cells, 10) {
        Some(v) => v,
        None => return None,
    };
    let cover_url = match text_cell(cells, 11) {
        Some(v) => v,
        None => return None,
    };
    let is_ebook = match int_cell(cells, 12) {
        Some(v) => v != 0,
        None => return None,
    };
    let access_viewability = match text_cell(cells, 13) {
        Some(v) => v,
        None => return None,
    };
    let is_present_in_source = match int_cell(cells, 14) {
        Some(v) => v != 0,
        None => return None,
    };
    Some(RawEditionRow {
        id,
        title,
        subtitle,
        format,
        isbn_10,
        isbn_13,
        publisher,
        published_date,
        language,
        page_count,
        audio_duration_minutes,
        cover_url,
        is_ebook,
        access_viewability,
        is_present_in_source,
    })
}

pub open spec fn author_cells_fit(c: Seq<SqlCell>) -> bool {
    &&& c.len() >= 4
    &&& cell_int(c[0]) is Some
    &&& cell_text(c[1]) is Some
    &&& cell_text(c[2]) is Some
    &&& cell_int(c[3]) is Some
}

pub open spec fn author_of_cells(row: BookAuthorRecord, c: Seq<SqlCell>) -> bool {
    &&& c.len() >= 4
    &&& cell_int(c[0]) == Some(row.id)
    &&& cell_text(c[1]) == Some(row.name@)
    &&& cell_text(c[2]) == Some(row.role@)
    &&& cell_int(c[3]) == Some(row.position)
}

pub fn author_from_cells(cells: &Vec<SqlCell>) -> (r: Option<BookAuthorRecord>)
    ensures
        r is Some <==> author_cells_fit(cells@),
        r matches Some(row) ==> author_of_cells(row, cells@),
{
    if cells.len() < 4 {
        return None;
    }
    let id = match int_cell(cells, 0) {
        Some(v) => v,
        None => return None,
    };
    let name = match text_cell(cells, 1) {
        Some(v) => v,
        None => return None,
    };
    let role = match text_cell(cells, 2) {
        Some(v) => v,
        None => return None,
    };
    let position = match int_cell(cells, 3) {
        Some(v) => v,
        None => return None,
    };
    Some(BookAuthorRecord {
        id,
        name,
        role,
        position,
    })
}

pub open spec fn link_cells_fit(c: Seq<SqlCell>) -> bool {
    &&& c.len() >= 9
    &&& cell_int(c[0]) is Some
    &&& cell_opt_int(c[1]) is Some
    &&& cell_text(c[2]) is Some
    &&& cell_text(c[3]) is Some
    &&& cell_text(c[4]) is Some
    &&& cell_text(c[5]) is Some
    &&& cell_int(c[6]) is Some
    &&& cell_int(c[7]) is Some
    &&& cell_text(c[8]) is Some
}

pub open spec fn link_of_cells(row: BookLinkRecord, c: Seq<SqlCell>) -> bool {
    &&& c.len() >= 9
    &&& cell_int(c[0]) == Some(row.id)
    &&& cell_opt_int(c[1]) == Some(row.edition_id)
    &&& cell_text(c[2]) == Some(row.source_key@)
    &&& cell_text(c[3]) == Some(row.link_type@)
    &&& cell_text(c[4]) == Some(row.url@)
    &&& cell_text(c[5]) == Some(row.region_code@)
    &&& cell_int(c[6]) matches Some(v) && row.is_user_owned == (v != 0)
    &&& cell_int(c[7]) matches Some(v) && row.is_preferred == (v != 0)
    &&& cell_text(c[8]) == Some(row.refreshed_at@)
}

pub fn link_from_cells(cells: &Vec<SqlCell>) -> (r: Option<BookLinkRecord>)
    ensures
        r is Some <==> link_cells_fit(cells@),
        r matches Some(row) ==> link_of_cells(row, cells@),
{
    if cells.len() < 9 {
        return None;
    }
    let id = match int_cell(cells, 0) {
        Some(v) => v,
        None => return None,
    };
    let edition_id = match opt_int_cell(cells, 1) {
        Some(v) => v,
        None => return None,
    };
    let source_key = match text_cell(cells, 2) {
        Some(v) => v,
        None => return None,
    };
    let link_type = match text_cell(cells, 3) {
        Some(v) => v,
        None => return None,
    };
    let url = match text_cell(cells, 4) {
        Some(v) => v,
        None => return None,
    };
    let region_code = match text_cell(cells, 5) {
        Some(v) => v,
        None => return None,
    };
    let is_user_owned = match int_cell(cells, 6) {
        Some(v) => v != 0,
        None => return None,
    };
    let is_preferred = match int_cell(cells, 7) {
        Some(v) => v != 0,
        None => return None,
    };
    let refreshed_at = match text_cell(cells, 8) {
        Some(v) => v,
        None => return None,
    };
    Some(BookLinkRecord {
        id,
        edition_id,
        source_key,
        link_type,
        url,
        region_code,
        is_user_owned,
        is_preferred,
        refreshed_at,
    })
}

pub open spec fn series_cells_fit(c: Seq<SqlCell>) -> bool {
    &&& c.len() >= 7
    &&& cell_int(c[0]) is Some
    &&& cell_text(c[1]) is Some
    &&& cell_text(c[2]) is Some
    &&& cell_int(c[4]) is Some
    &&& cell_text(c[5]) is Some
    &&& cell_int(c[6]) is Some
}

pub open spec fn series_of_cells(row: BookSeriesRecord, c: Seq<SqlCell>) -> bool {
    &&& c.len() >= 7
    &&& cell_int(c[0]) == Some(row.id)
    &&& cell_text(c[1]) == Some(row.name@)
    &&& cell_text(c[2]) == Some(row.position_text@)
    &&& cell_int(c[4]) matches Some(v) && row.is_primary == (v != 0)
    &&& cell_text(c[5]) == Some(row.source_key@)
    &&& cell_int(c[6]) matches Some(v) && row.is_user_override == (v != 0)
}

pub fn series_from_cells(cells: &Vec<SqlCell>) -> (r: Option<BookSeriesRecord>)
    ensures
        r is Some <==> series_cells_fit(cells@),
        r matches Some(row) ==> series_of_cells(row, cells@),
{
    if cells.len() < 7 {
        return None;
    }
    let id = match int_cell(cells, 0) {
        Some(v) => v,
        None => return None,
    };
    let name = match text_cell(cells, 1) {
        Some(v) => v,
        None => return None,
    };
    let position_text = match text_cell(cells, 2) {
        Some(v) => v,
        None => return None,
    };
    let is_primary = match int_cell(cells, 4) {
        Some(v) => v != 0,
        None => return None,
    };
    let source_key = match text_cell(cells, 5) {
        Some(v) => v,
        None => return None,
    };
    let is_user_override = match int_cell(cells, 6) {
        Some(v) => v != 0,
        None => return None,
    };
    Some(BookSeriesRecord {
        id,
        name,
        position_text,
        is_primary,
        source_key,
        is_user_override,
    })
}

pub open spec fn source_cells_fit(c: Seq<SqlCell>) -> bool {
    &&& c.len() >= 7
    &&& cell_text(c[0]) is Some
    &&& cell_text(c[1]) is Some
    &&& cell_text(c[2]) is Some
    &&& cell_text(c[3]) is Some
    &&& cell_text(c[4]) is Some
    &&& cell_text(c[5]) is Some
    &&& cell_text(c[6]) is Some
}

pub open spec fn source_of_cells(row: BookSourceRecord, c: Seq<SqlCell>) -> bool {
    &&& c.len() >= 7
    &&& cell_text(c[0]) == Some(row.source_key@)
    &&& cell_text(c[1]) == Some(row.entity_type@)
    &&& cell_text(c[2]) == Some(row.external_id@)
    &&& cell_text(c[3]) == Some(row.source_url@)
    &&& cell_text(c[4]) == Some(row.refreshed_at@)
    &&& cell_text(c[5]) == Some(row.last_refresh_status@)
    &&& cell_text(c[6]) == Some(row.last_refresh_error@)
}

pub fn source_from_cells(cells: &Vec<SqlCell>) -> (r: Option<BookSourceRecord>)
    ensures
        r is Some <==> source_cells_fit(cells@),
        r matches Some(row) ==> source_of_cells(row, cells@),
{
    if cells.len() < 7 {
        return None;
    }
    let source_key = match text_cell(cells, 0) {
        Some(v) => v,
        None => return None,
    };
    let entity_type = match text_cell(cells, 1) {
        Some(v) => v,
        None => return None,
    };
    let external_id = match text_cell(cells, 2) {
        Some(v) => v,
        None => return None,
    };
    let source_url = match text_cell(cells, 3) {
        Some(v) => v,
        None => return None,
    };
    let refreshed_at = match text_cell(cells, 4) {
        Some(v) => v,
        None => return None,
    };
    let last_refresh_status = match text_cell(cells, 5) {
        Some(v) => v,
        None => return None,
    };
    let last_refresh_error = match text_cell(cells, 6) {
        Some(v) => v,
        None => return None,
    };
    Some(BookSourceRecord {
        source_key,
        entity_type,
        external_id,
        source_url,
        refreshed_at,
        last_refresh_status,
        last_refresh_error,
    })
}

#[derive(Clone, Debug)]
pub struct RawWorkRow {
    pub subjects_json: String,
    pub community_rating_count: Option<i64>,
}

pub open spec fn work_cells_fit(c: Seq<SqlCell>) -> bool {
    &&& c.len() >= 2
    &&& cell_text(c[0]) is Some
    &&& cell_opt_int(c[1]) is Some
}

pub open spec fn work_of_cells(row: RawWorkRow, c: Seq<SqlCell>) -> bool {
    &&& c.len() >= 2
    &&& cell_text(c[0]) == Some(row.subjects_json@)
    &&& cell_opt_int(c[1]) == Some(row.community_rating_count)
}

pub fn work_from_cells(cells: &Vec<SqlCell>) -> (r: Option<RawWorkRow>)
    ensures
        r is Some <==> work_cells_fit(cells@),
        r matches Some(row) ==> work_of_cells(row, cells@),
{
    if cells.len() < 2 {
        return None;
    }
    let subjects_json = match text_cell(cells, 0) {
        Some(v) => v,
        None => return None,
    };
    let community_rating_count = match opt_int_cell(cells, 1) {
        Some(v) => v,
        None => return None,
    };
    Some(RawWorkRow {
        subjects_json,
        community_rating_count,
    })
}

/// An edition belongs to the reader when no provider row names it: no
/// source at all, or only `manual` ones.
pub open spec fn user_owned_keys(keys: Seq<Seq<char>>) -> bool {
    keys.len() == 0 || forall|k: int| 0 <= k < keys.len() ==> keys[k] == "manual"@
}

pub fn is_user_owned(keys: &Vec<String>) -> (r: bool)
    ensures
        r == user_owned_keys(string_views(keys@)),
{
    let mut i: usize = 0;
    while i < keys.len()
        invariant
            i <= keys@.len(),
            forall|k: int| 0 <= k < i ==> (#[trigger] keys@[k])@ == "manual"@,
        decreases keys@.len() - i,
    {
        if !chars_eq_str(&chars_of(keys[i].as_str()), "manual") {
            assert(string_views(keys@)[i as int] != "manual"@);
            return false;
        }
        i = i + 1;
    }
    true
}

/// The edition record of a row and the sources that name it; a format
/// label that does not parse is refused with its parser's error.
pub fn edition_record(raw: RawEditionRow, source_keys: Vec<String>) -> (r: Result<BookEditionRecord, MediaError>)
    ensures
        r is Ok <==> BookFormat::from_label(raw.format@) is Some,
        r matches Err(e) ==> e.kind == MediaErrorKind::Validation,
        r matches Ok(e) ==> e.id == raw.id && e.title@ == raw.title@ && e.subtitle@ == raw.subtitle@
            && BookFormat::from_label(raw.format@) == Some(e.format) && e.isbn_10@ == raw.isbn_10@
            && e.isbn_13@ == raw.isbn_13@ && e.publisher@ == raw.publisher@ && e.published_date@
            == raw.published_date@ && e.language@ == raw.language@ && e.page_count == raw.page_count
            && e.audio_duration_minutes == raw.audio_duration_minutes && e.cover_url@ == raw.cover_url@
            && e.is_ebook == raw.is_ebook && e.access_viewability@ == raw.access_viewability@
            && e.is_present_in_source == raw.is_present_in_source && string_views(e.source_keys@)
            == string_views(source_keys@) && e.is_user_owned == user_owned_keys(string_views(source_keys@)),
{
    let format = match BookFormat::from_str(raw.format.as_str()) {
        Ok(f) => f,
        Err(e) => return Err(e),
    };
    let is_user_owned = is_user_owned(&source_keys);
    Ok(BookEditionRecord {
        id: raw.id,
        title: raw.title,
        subtitle: raw.subtitle,
        format,
        isbn_10: raw.isbn_10,
        isbn_13: raw.isbn_13,
        publisher: raw.publisher,
        published_date: raw.published_date,
        language: raw.language,
        page_count: raw.page_count,
        audio_duration_minutes: raw.audio_duration_minutes,
        cover_url: raw.cover_url,
        is_ebook: raw.is_ebook,
        access_viewability: raw.access_viewability,
        is_present_in_source: raw.is_present_in_source,
        source_keys,
        is_user_owned,
    })
}

/// The strings of a JSON list whose items are all strings.
pub open spec fn json_strings(v: JsonValue) -> Option<Seq<Seq<char>>> {
    match v {
        JsonValue::Array(items) => if forall|i: int| 0 <= i < items@.len() ==> #[trigger] items@[i] is Text {
            Some(Seq::new(items@.len(), |i: int| items@[i]->Text_0@))
        } else {
            None
        },
        _ => None,
    }
}

/// The subjects a work keeps as JSON: the list of strings it holds, or none
/// when it holds anything else.
pub open spec fn subjects_from_json(text: Seq<char>) -> Seq<Seq<char>> {
    match crate::json::parsed_json(text) {
        Some(v) => match json_strings(v) {
            Some(l) => l,
            None => seq![],
        },
        None => seq![],
    }
}

pub fn subjects_of(text: &str) -> (r: Vec<String>)
    ensures
        string_views(r@) == subjects_from_json(text@),
{
    let parsed = match parse_json(text) {
        Ok(v) => v,
        Err(_) => {
            let empty: Vec<String> = Vec::new();
            assert(string_views(empty@) =~= seq![]);
            return empty;
        },
    };
    let ghost pv = parsed;
    match parsed {
        JsonValue::Array(items) => {
            let mut out: Vec<String> = Vec::new();
            let mut i: usize = 0;
            while i < items.len()
                invariant
                    i <= items@.len(),
                    out@.len() == i,
                    pv == JsonValue::Array(items),
                    crate::json::parsed_json(text@) == Some(pv),
                    forall|k: int| 0 <= k < i ==> #[trigger] items@[k] is Text && out@[k]@ == items@[k]->Text_0@,
                decreases items@.len() - i,
            {
                match &items[i] {
                    JsonValue::Text(t) => out.push(string_of(&chars_of(t.as_str()))),
                    _ => {
                        assert(!(items@[i as int] is Text));
                        assert(json_strings(pv) is None);
                        let empty: Vec<String> = Vec::new();
                        assert(string_views(empty@) =~= seq![]);
                        return empty;
                    },
                }
                i = i + 1;
            }
            assert(string_views(out@) =~= Seq::new(items@.len(), |i: int| items@[i]->Text_0@));
            out
        },
        _ => {
            let empty: Vec<String> = Vec::new();
            assert(string_views(empty@) =~= seq![]);
            empty
        },
    }
}

/// A book in full.
#[derive(Debug)]
pub struct BookLibraryDetail {
    pub item: BookLibraryItem,
    pub editions: Vec<BookEditionRecord>,
    pub authors: Vec<BookAuthorRecord>,
    pub links: Vec<BookLinkRecord>,
    pub series: Vec<BookSeriesRecord>,
    pub sources: Vec<BookSourceRecord>,
    pub subjects: Vec<String>,
    pub community_rating_count: Option<i64>,
    pub provider_warnings: Vec<String>,
    pub tags: Vec<MediaTagRecord>,
}

/// The errors reading a book back can end in.
pub open spec fn detail_error(e: MediaError) -> bool {
    database_or_not_found(e, "Book library entry was not found."@) || e.kind == MediaErrorKind::Validation
}

impl<'a> BookRepository<'a> {
    fn edition_records(connection: &rusqlite::Connection, title_id: i64) -> (r: Result<Vec<BookEditionRecord>, MediaError>)
        ensures
            r matches Err(e) ==> detail_error(e),
            r matches Ok(v) ==> forall|i: int|
                0 <= i < v@.len() ==> (#[trigger] v@[i]).is_user_owned == user_owned_keys(
                    string_views(v@[i].source_keys@),
                ),
    {
        let q = int_statement(BOOK_EDITIONS_SQL, title_id);
        let rows = match sql_cell_rows(connection, q.sql, &q.params) {
            Ok(rows) => rows,
            Err(e) => return Err(MediaError::from_sql(&e)),
        };
        let mut out: Vec<BookEditionRecord> = Vec::new();
        let mut i: usize = 0;
        while i < rows.len()
            invariant
                i <= rows@.len(),
                forall|k: int|
                    0 <= k < out@.len() ==> (#[trigger] out@[k]).is_user_owned == user_owned_keys(
                        string_views(out@[k].source_keys@),
                    ),
            decreases rows@.len() - i,
        {
            let raw = match edition_row_from_cells(&rows[i]) {
                Some(raw) => raw,
                None => return Err(row_shape_error()),
            };
            let k = int_statement(EDITION_SOURCE_KEYS_SQL, raw.id);
            let key_rows = match sql_cell_rows(connection, k.sql, &k.params) {
                Ok(rows) => rows,
                Err(e) => return Err(MediaError::from_sql(&e)),
            };
            let mut keys: Vec<String> = Vec::new();
            let mut j: usize = 0;
            while j < key_rows.len()
                invariant
                    j <= key_rows@.len(),
                decreases key_rows@.len() - j,
            {
                match text_cell(&key_rows[j], 0) {
                    Some(t) => keys.push(t),
                    None => return Err(row_shape_error()),
                }
                j = j + 1;
            }
            match edition_record(raw, keys) {
                Ok(e) => out.push(e),
                Err(e) => return Err(e),
            }
            i = i + 1;
        }
        Ok(out)
    }

    /// A book in full, with the given provider warnings; a book that is not
    /// in the library is not found.
    pub fn get_detail_with_warnings(&self, entry_id: i64, provider_warnings: Vec<String>) -> (r: Result<
        BookLibraryDetail,
        MediaError,
    >)
        ensures
            r matches Err(e) ==> detail_error(e),
            r matches Ok(d) ==> d.provider_warnings == provider_warnings && (forall|i: int|
                0 <= i < d.editions@.len() ==> (#[trigger] d.editions@[i]).is_user_owned == user_owned_keys(
                    string_views(d.editions@[i].source_keys@),
                )),
    {
        let connection = self.database.connection();
        let mut sql = chars_of(BOOK_ITEM_SELECT);
        extend_str(&mut sql, " AND entry.id = ?1");
        let query = string_of(&sql);
        let by_id = int_statement(BOOK_TAGS_SQL, entry_id);
        // The item query takes the same one parameter, the entry id.
        let rows = match sql_cell_rows(connection, query.as_str(), &by_id.params) {
            Ok(rows) => rows,
            Err(e) => return Err(MediaError::from_sql(&e)),
        };
        if rows.len() == 0 {
            return Err(MediaError::not_found("Book library entry was not found."));
        }
        let raw = match book_row_from_cells(&rows[0]) {
            Some(raw) => raw,
            None => return Err(row_shape_error()),
        };
        let item = match book_item_from_raw(raw) {
            Ok(item) => item,
            Err(e) => return Err(e),
        };
        let title_id = item.media_title_id;
        let editions = match Self::edition_records(connection, title_id) {
            Ok(v) => v,
            Err(e) => return Err(e),
        };
        let a = int_statement(BOOK_AUTHORS_SQL, title_id);
        let author_rows = match sql_cell_rows(connection, a.sql, &a.params) {
            Ok(rows) => rows,
            Err(e) => return Err(MediaError::from_sql(&e)),
        };
        let mut authors: Vec<BookAuthorRecord> = Vec::new();
        let mut i: usize = 0;
        while i < author_rows.len()
            invariant
                i <= author_rows@.len(),
            decreases author_rows@.len() - i,
        {
            match author_from_cells(&author_rows[i]) {
                Some(r) => authors.push(r),
                None => return Err(row_shape_error()),
            }
            i = i + 1;
        }
        let l = int_statement(BOOK_LINKS_SQL, title_id);
        let link_rows = match sql_cell_rows(connection, l.sql, &l.params) {
            Ok(rows) => rows,
            Err(e) => return Err(MediaError::from_sql(&e)),
        };
        let mut links: Vec<BookLinkRecord> = Vec::new();
        let mut i: usize = 0;
        while i < link_rows.len()
            invariant
                i <= link_rows@.len(),
            decreases link_rows@.len() - i,
        {
            match link_from_cells(&link_rows[i]) {
                Some(r) => links.push(r),
                None => return Err(row_shape_error()),
            }
            i = i + 1;
        }
        let s = int_statement(BOOK_SERIES_SQL, title_id);
        let series_rows = match sql_cell_rows(connection, s.sql, &s.params) {
            Ok(rows) => rows,
            Err(e) => return Err(MediaError::from_sql(&e)),
        };
        let mut series: Vec<BookSeriesRecord> = Vec::new();
        let mut i: usize = 0;
        while i < series_rows.len()
            invariant
                i <= series_rows@.len(),
            decreases series_rows@.len() - i,
        {
            match series_from_cells(&series_rows[i]) {
                Some(r) => series.push(r),
                None => return Err(row_shape_error()),
            }
            i = i + 1;
        }
        let so = int_statement(BOOK_SOURCES_SQL, title_id);
        let source_rows = match sql_cell_rows(connection, so.sql, &so.params) {
            Ok(rows) => rows,
            Err(e) => return Err(MediaError::from_sql(&e)),
        };
        let mut sources: Vec<BookSourceRecord> = Vec::new();
        let mut i: usize = 0;
        while i < source_rows.len()
            invariant
                i <= source_rows@.len(),
            decreases source_rows@.len() - i,
        {
            match source_from_cells(&source_rows[i]) {
                Some(r) => sources.push(r),
                None => return Err(row_shape_error()),
            }
            i = i + 1;
        }
        let tag_rows = match sql_tag_rows(connection, by_id.sql, &by_id.params) {
            Ok(rows) => rows,
            Err(e) => return Err(MediaError::from_sql(&e)),
        };
        let tags = tag_records(tag_rows);
        let w = int_statement(BOOK_WORK_SQL, title_id);
        let work_rows = match sql_cell_rows(connection, w.sql, &w.params) {
            Ok(rows) => rows,
            Err(e) => return Err(MediaError::from_sql(&e)),
        };
        if work_rows.len() == 0 {
            return Err(row_shape_error());
        }
        let work = match work_from_cells(&work_rows[0]) {
            Some(r) => r,
            None => return Err(row_shape_error()),
        };
        let subjects = subjects_of(work.subjects_json.as_str());
        Ok(BookLibraryDetail {
            item,
            editions,
            authors,
            links,
            series,
            sources,
            subjects,
            community_rating_count: work.community_rating_count,
            provider_warnings,
            tags,
        })
    }

    /// A book in full, with no provider warnings.
    pub fn get_detail(&self, entry_id: i64) -> (r: Result<BookLibraryDetail, MediaError>)
        ensures
            r matches Err(e) ==> detail_error(e),
            r matches Ok(d) ==> d.provider_warnings@.len() == 0,
    {
        self.get_detail_with_warnings(entry_id, Vec::new())
    }
}

impl<'a> crate::book_service::BookLibraryService<'a> {
    /// A book in full (`BookRepository::get_detail`).
    pub fn get(&self, entry_id: i64) -> (r: Result<BookLibraryDetail, MediaError>)
        ensures
            r matches Err(e) ==> detail_error(e),
            r matches Ok(d) ==> d.provider_warnings@.len() == 0,
    {
        self.repository.get_detail(entry_id)
    }

    /// The books of the library as the filter asks (`BookRepository::list`).
    pub fn list(&self, filter: &crate::books::BookLibraryFilter) -> (r: Result<Vec<BookLibraryItem>, MediaError>)
        ensures
            r matches Err(e) ==> is_database_error(e) || e.kind == MediaErrorKind::Validation,
            r matches Ok(v) ==> forall|i: int|
                0 <= i < v@.len() ==> crate::book_list::item_passes(*filter, #[trigger] v@[i]),
    {
        self.repository.list(filter)
    }
}

} // verus!
