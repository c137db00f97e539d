//! The book library list: the rows it reads, the item each row makes,
//! and the list filtered as the reader asked.
use crate::book_progress::{effective_progress_total, progress_total, ProgressTotal};
use crate::book_service::{book_matches, book_matches_filter, book_order_terms_chars, BookListFacts, BookRepository};
use crate::books::{BookFormat, BookLibraryFilter, BookOwnershipStatus, BookProgressUnit};
use crate::database::{
    cell_int, cell_opt_int, cell_text, int_cell, is_database_error, opt_int_cell, row_shape_error, sql_cell_rows,
    sql_i64_value, text_cell, SqlCell, SqlParam,
};
use crate::media::{MediaError, MediaErrorKind, MediaLibraryStatus};
use crate::statements::int_pair_statement;
use crate::text::{chars_of, extend_chars, string_of};
use vstd::prelude::*;

verus! {

/// The columns of a book list row. The personal rating, the progress value
/// and the total override are real numbers and are not read; whether the
/// override is above zero is read as its own column (28).
pub const BOOK_ITEM_SELECT: &'static str = "
    SELECT entry.id,entry.media_title_id,title.title,work.subtitle,work.primary_author_text,
           title.overview,work.first_publish_year,work.canonical_cover_url,
           entry.library_status,entry.is_favorite,entry.personal_rating,entry.notes,entry.priority,
           entry.added_at,entry.started_at,entry.completed_at,work.metadata_refreshed_at,
           reader.progress_unit,reader.progress_value,reader.progress_total_override,
           reader.current_chapter,reader.preferred_edition_id,reader.ownership_status,
           reader.preferred_format,reader.reading_queue_position,reader.last_progress_at,
           edition.page_count,edition.audio_duration_minutes,
           COALESCE(reader.progress_total_override > 0, 0)
    FROM obj_media_library_entry entry
    JOIN obj_media_title title ON title.id=entry.media_title_id AND title.content_type='BOOK'
    JOIN obj_media_book_work work ON work.media_title_id=title.id
    JOIN obj_media_book_reader_state reader ON reader.media_library_entry_id=entry.id
    LEFT JOIN obj_media_book_edition edition ON edition.id=reader.preferred_edition_id
    WHERE 1=1
    ";

/// A book list row as read.
#[derive(Clone, Debug)]
pub struct RawBookRow {
    pub entry_id: i64,
    pub media_title_id: i64,
    pub title: String,
    pub subtitle: String,
    pub primary_author_text: String,
    pub description: String,
    pub first_publish_year: Option<i64>,
    pub cover_url: String,
    pub library_status: String,
    pub is_favorite: bool,
    pub notes: String,
    pub priority: i64,
    pub added_at: String,
    pub started_at: String,
    pub completed_at: String,
    pub metadata_refreshed_at: String,
    pub progress_unit: String,
    pub current_chapter: String,
    pub preferred_edition_id: Option<i64>,
    pub ownership_status: String,
    pub preferred_format: String,
    pub reading_queue_position: Option<i64>,
    pub last_progress_at: String,
    pub page_count: Option<i64>,
    pub audio_duration_minutes: Option<i64>,
    pub override_is_positive: bool,
}

/// Whether every column the list reads holds a value of its kind.
pub open spec fn book_cells_fit(c: Seq<SqlCell>) -> bool {
    &&& c.len() >= 29
    &&& cell_int(c[0]) is Some
    &&& cell_int(c[1]) is Some
    &&& cell_text(c[2]) is Some
    &&& cell_text(c[3]) is Some
    &&& cell_text(c[4]) is Some
    &&& cell_text(c[5]) is Some
    &&& cell_opt_int(c[6]) is Some
    &&& cell_text(c[7]) is Some
    &&& cell_text(c[8]) is Some
    &&& cell_int(c[9]) is Some
    &&& cell_text(c[11]) is Some
    &&& cell_int(c[12]) is Some
    &&& cell_text(c[13]) is Some
    &&& cell_text(c[14]) is Some
    &&& cell_text(c[15]) is Some
    &&& cell_text(c[16]) is Some
    &&& cell_text(c[17]) is Some
    &&& cell_text(c[20]) is Some
    &&& cell_opt_int(c[21]) is Some
    &&& cell_text(c[22]) is Some
    &&& cell_text(c[23]) is Some
    &&& cell_opt_int(c[24]) is Some
    &&& cell_text(c[25]) is Some
    &&& cell_opt_int(c[26]) is Some
    &&& cell_opt_int(c[27]) is Some
    &&& cell_int(c[28]) is Some
}

/// Whether `row` holds the columns of the cells.
pub open spec fn book_row_of_cells(row: RawBookRow, c: Seq<SqlCell>) -> bool {
    &&& c.len() >= 29
    &&& cell_int(c[0]) == Some(row.entry_id)
    &&& cell_int(c[1]) == Some(row.media_title_id)
    &&& cell_text(c[2]) == Some(row.title@)
    &&& cell_text(c[3]) == Some(row.subtitle@)
    &&& cell_text(c[4]) == Some(row.primary_author_text@)
    &&& cell_text(c[5]) == Some(row.description@)
    &&& cell_opt_int(c[6]) == Some(row.first_publish_year)
    &&& cell_text(c[7]) == Some(row.cover_url@)
    &&& cell_text(c[8]) == Some(row.library_status@)
    &&& cell_int(c[9]) matches Some(v) && row.is_favorite == (v != 0)
    &&& cell_text(c[11]) == Some(row.notes@)
    &&& cell_int(c[12]) == Some(row.priority)
    &&& cell_text(c[13]) == Some(row.added_at@)
    &&& cell_text(c[14]) == Some(row.started_at@)
    &&& cell_text(c[15]) == Some(row.completed_at@)
    &&& cell_text(c[16]) == Some(row.metadata_refreshed_at@)
    &&& cell_text(c[17]) == Some(row.progress_unit@)
    &&& cell_text(c[20]) == Some(row.current_chapter@)
    &&& cell_opt_int(c[21]) == Some(row.preferred_edition_id)
    &&& cell_text(c[22]) == Some(row.ownership_status@)
    &&& cell_text(c[23]) == Some(row.preferred_format@)
    &&& cell_opt_int(c[24]) == Some(row.reading_queue_position)
    &&& cell_text(c[25]) == Some(row.last_progress_at@)
    &&& cell_opt_int(c[26]) == Some(row.page_count)
    &&& cell_opt_int(c[27]) == Some(row.audio_duration_minutes)
    &&& cell_int(c[28]) matches Some(v) && row.override_is_positive == (v != 0)
}

/// Reads a book list row from its cells; nothing when a column is not of
/// its kind.
pub fn book_row_from_cells(cells: &Vec<SqlCell>) -> (r: Option<RawBookRow>)
    ensures
        r is Some <==> book_cells_fit(cells@),
        r matches Some(row) ==> book_row_of_cells(row, cells@),
{
    if cells.len() < 29 {
        return None;
    }
    let entry_id = match int_cell(cells, 0) {
        Some(v) => v,
        None => return None,
    };
    let media_title_id = match int_cell(cells, 1) {
        Some(v) => v,
        None => return None,
    };
    let title = match text_cell(cells, 2) {
        Some(v) => v,
        None => return None,
    };
    let subtitle = match text_cell(cells, 3) {
        Some(v) => v,
        None => return None,
    };
    let primary_author_text = match text_cell(cells, 4) {
        Some(v) => v,
        None => return None,
    };
    let description = match text_cell(cells, 5) {
        Some(v) => v,
        None => return None,
    };
    let first_publish_year = match opt_int_cell(cells, 6) {
        Some(v) => v,
        None => return None,
    };
    let cover_url = match text_cell(cells, 7) {
        Some(v) => v,
        None => return None,
    };
    let library_status = match text_cell(cells, 8) {
        Some(v) => v,
        None => return None,
    };
    let is_favorite = match int_cell(cells, 9) {
        Some(v) => v != 0,
        None => return None,
    };
    let notes = match text_cell(cells, 11) {
        Some(v) => v,
        None => return None,
    };
    let priority = match int_cell(cells, 12) {
        Some(v) => v,
        None => return None,
    };
    let added_at = match text_cell(cells, 13) {
        Some(v) => v,
        None => return None,
    };
    let started_at = match text_cell(cells, 14) {
        Some(v) => v,
        None => return None,
    };
    let completed_at = match text_cell(cells, 15) {
        Some(v) => v,
        None => return None,
    };
    let metadata_refreshed_at = match text_cell(cells, 16) {
        Some(v) => v,
        None => return None,
    };
    let progress_unit = match text_cell(cells, 17) {
        Some(v) => v,
        None => return None,
    };
    let current_chapter = match text_cell(cells, 20) {
        Some(v) => v,
        None => return None,
    };
    let preferred_edition_id = match opt_int_cell(cells, 21) {
        Some(v) => v,
        None => return None,
    };
    let ownership_status = match text_cell(cells, 22) {
        Some(v) => v,
        None => return None,
    };
    let preferred_format = match text_cell(cells, 23) {
        Some(v) => v,
        None => return None,
    };
    let reading_queue_position = match opt_int_cell(cells, 24) {
        Some(v) => v,
        None => return None,
    };
    let last_progress_at = match text_cell(cells, 25) {
        Some(v) => v,
        None => return None,
    };
    let page_count = match opt_int_cell(cells, 26) {
        Some(v) => v,
        None => return None,
    };
    let audio_duration_minutes = match opt_int_cell(cells, 27) {
        Some(v) => v,
        None => return None,
    };
    let override_is_positive = match int_cell(cells, 28) {
        Some(v) => v != 0,
        None => return None,
    };
    Some(RawBookRow {
        entry_id,
        media_title_id,
        title,
        subtitle,
        primary_author_text,
        description,
        first_publish_year,
        cover_url,
        library_status,
        is_favorite,
        notes,
        priority,
        added_at,
        started_at,
        completed_at,
        metadata_refreshed_at,
        progress_unit,
        current_chapter,
        preferred_edition_id,
        ownership_status,
        preferred_format,
        reading_queue_position,
        last_progress_at,
        page_count,
        audio_duration_minutes,
        override_is_positive,
    })
}

/// Where a book stands: its progress unit and the total it is measured
/// against, chapter, preferred edition, ownership, format, read-next place
/// and last progress time.
#[derive(Clone, Debug)]
pub struct BookProgressSummary {
    pub progress_unit: BookProgressUnit,
    pub effective_total: ProgressTotal,
    pub current_chapter: String,
    pub preferred_edition_id: Option<i64>,
    pub ownership_status: BookOwnershipStatus,
    pub preferred_format: BookFormat,
    pub reading_queue_position: Option<i64>,
    pub last_progress_at: String,
}

/// A book as the library lists it.
#[derive(Clone, Debug)]
pub struct BookLibraryItem {
    pub entry_id: i64,
    pub media_title_id: i64,
    pub title: String,
    pub subtitle: String,
    pub primary_author_text: String,
    pub description: String,
    pub first_publish_year: Option<i64>,
    pub cover_url: String,
    pub library_status: MediaLibraryStatus,
    pub is_favorite: bool,
    pub notes: String,
    pub priority: i64,
    pub added_at: String,
    pub started_at: String,
    pub completed_at: String,
    pub metadata_refreshed_at: String,
    pub progress: BookProgressSummary,
}

/// Whether the labels of a row all parse.
pub open spec fn book_labels_parse(raw: RawBookRow) -> bool {
    &&& BookProgressUnit::from_label(raw.progress_unit@) is Some
    &&& MediaLibraryStatus::from_label(raw.library_status@) is Some
    &&& BookOwnershipStatus::from_label(raw.ownership_status@) is Some
    &&& BookFormat::from_label(raw.preferred_format@) is Some
}

/// The item a row makes: its columns, with the labels parsed and the
/// total the progress is measured against.
pub open spec fn book_item_of(raw: RawBookRow, item: BookLibraryItem) -> bool {
    &&& item.entry_id == raw.entry_id
    &&& item.media_title_id == raw.media_title_id
    &&& item.title@ == raw.title@
    &&& item.subtitle@ == raw.subtitle@
    &&& item.primary_author_text@ == raw.primary_author_text@
    &&& item.description@ == raw.description@
    &&& item.first_publish_year == raw.first_publish_year
    &&& item.cover_url@ == raw.cover_url@
    &&& MediaLibraryStatus::from_label(raw.library_status@) == Some(item.library_status)
    &&& item.is_favorite == raw.is_favorite
    &&& item.notes@ == raw.notes@
    &&& item.priority == raw.priority
    &&& item.added_at@ == raw.added_at@
    &&& item.started_at@ == raw.started_at@
    &&& item.completed_at@ == raw.completed_at@
    &&& item.metadata_refreshed_at@ == raw.metadata_refreshed_at@
    &&& BookProgressUnit::from_label(raw.progress_unit@) == Some(item.progress.progress_unit)
    &&& item.progress.effective_total == progress_total(
        item.progress.progress_unit,
        raw.override_is_positive,
        raw.page_count,
        raw.audio_duration_minutes,
    )
    &&& item.progress.current_chapter@ == raw.current_chapter@
    &&& item.progress.preferred_edition_id == raw.preferred_edition_id
    &&& BookOwnershipStatus::from_label(raw.ownership_status@) == Some(item.progress.ownership_status)
    &&& BookFormat::from_label(raw.preferred_format@) == Some(item.progress.preferred_format)
    &&& item.progress.reading_queue_position == raw.reading_queue_position
    &&& item.progress.last_progress_at@ == raw.last_progress_at@
}

/// The item of a row; a label that does not parse is refused with its
/// parser's error (unit, status, ownership, format, in that order).
pub fn book_item_from_raw(raw: RawBookRow) -> (r: Result<BookLibraryItem, MediaError>)
    ensures
        r is Ok <==> book_labels_parse(raw),
        r matches Ok(item) ==> book_item_of(raw, item),
        r matches Err(e) ==> e.kind == MediaErrorKind::Validation,
{
    let progress_unit = match BookProgressUnit::from_str(raw.progress_unit.as_str()) {
        Ok(u) => u,
        Err(e) => return Err(e),
    };
    let library_status = match MediaLibraryStatus::from_str(raw.library_status.as_str()) {
        Ok(s) => s,
        Err(e) => return Err(e),
    };
    let ownership_status = match BookOwnershipStatus::from_str(raw.ownership_status.as_str()) {
        Ok(s) => s,
        Err(e) => return Err(e),
    };
    let preferred_format = match BookFormat::from_str(raw.preferred_format.as_str()) {
        Ok(f) => f,
        Err(e) => return Err(e),
    };
    let effective_total = effective_progress_total(
        progress_unit,
        raw.override_is_positive,
        raw.page_count,
        raw.audio_duration_minutes,
    );
    Ok(BookLibraryItem {
        entry_id: raw.entry_id,
        media_title_id: raw.media_title_id,
        title: raw.title,
        subtitle: raw.subtitle,
        primary_author_text: raw.primary_author_text,
        description: raw.description,
        first_publish_year: raw.first_publish_year,
        cover_url: raw.cover_url,
        library_status,
        is_favorite: raw.is_favorite,
        notes: raw.notes,
        priority: raw.priority,
        added_at: raw.added_at,
        started_at: raw.started_at,
        completed_at: raw.completed_at,
        metadata_refreshed_at: raw.metadata_refreshed_at,
        progress: BookProgressSummary {
            progress_unit,
            effective_total,
            current_chapter: raw.current_chapter,
            preferred_edition_id: raw.preferred_edition_id,
            ownership_status,
            preferred_format,
            reading_queue_position: raw.reading_queue_position,
            last_progress_at: raw.last_progress_at,
        },
    })
}

/// What the list's field filters read of an item.
pub open spec fn facts_of(item: BookLibraryItem, facts: BookListFacts) -> bool {
    &&& facts.title@ == item.title@
    &&& facts.subtitle@ == item.subtitle@
    &&& facts.primary_author_text@ == item.primary_author_text@
    &&& facts.notes@ == item.notes@
    &&& facts.library_status == item.library_status
    &&& facts.ownership_status == item.progress.ownership_status
    &&& facts.preferred_format == item.progress.preferred_format
    &&& facts.is_favorite == item.is_favorite
    &&& facts.is_read_next == item.progress.reading_queue_position is Some
}

pub fn list_facts(item: &BookLibraryItem) -> (r: BookListFacts)
    ensures
        facts_of(*item, r),
{
    BookListFacts {
        title: string_of(&chars_of(item.title.as_str())),
        subtitle: string_of(&chars_of(item.subtitle.as_str())),
        primary_author_text: string_of(&chars_of(item.primary_author_text.as_str())),
        notes: string_of(&chars_of(item.notes.as_str())),
        library_status: item.library_status,
        ownership_status: item.progress.ownership_status,
        preferred_format: item.progress.preferred_format,
        is_favorite: item.is_favorite,
        is_read_next: item.progress.reading_queue_position.is_some(),
    }
}

/// An item passes the field filters when what they read of it does.
pub open spec fn item_passes(f: BookLibraryFilter, item: BookLibraryItem) -> bool {
    exists|facts: BookListFacts| #[trigger] facts_of(item, facts) && book_matches(f, facts)
}

pub const ENTRY_HAS_TAG_SQL: &'static str = "SELECT EXISTS(
                        SELECT 1 FROM n2n_media_library_entry_tag
                        WHERE media_library_entry_id=?1 AND media_tag_id=?2
                    )";

/// The list query: the book columns ordered by `book_order_terms`.
pub fn book_list_sql(filter: &BookLibraryFilter) -> (r: String)
    ensures
        r@ == BOOK_ITEM_SELECT@ + " ORDER BY "@ + crate::book_service::book_order_terms(
            filter.sort@,
            filter.sort_direction@,
        ),
{
    let mut sql = chars_of(BOOK_ITEM_SELECT);
    crate::text::extend_str(&mut sql, " ORDER BY ");
    extend_chars(&mut sql, &book_order_terms_chars(filter.sort.as_str(), filter.sort_direction.as_str()));
    string_of(&sql)
}

impl<'a> BookRepository<'a> {
    /// The books of the library in the filter's order (`book_list_sql`),
    /// each row made an item by `book_item_from_raw`, keeping those that
    /// pass the field filters (`book_matches`) and, when a tag is asked
    /// for, carry it.
    pub fn list(&self, filter: &BookLibraryFilter) -> (r: Result<Vec<BookLibraryItem>, MediaError>)
        ensures
            r matches Err(e) ==> is_database_error(e) || e.kind == MediaErrorKind::Validation,
            r matches Ok(v) ==> forall|i: int| 0 <= i < v@.len() ==> item_passes(*filter, #[trigger] v@[i]),
    {
        let connection = self.database.connection();
        let sql = book_list_sql(filter);
        let none: Vec<SqlParam> = Vec::new();
        let rows = match sql_cell_rows(connection, sql.as_str(), &none) {
            Ok(rows) => rows,
            Err(e) => return Err(MediaError::from_sql(&e)),
        };
        let mut items: Vec<BookLibraryItem> = Vec::new();
        let mut i: usize = 0;
        while i < rows.len()
            invariant
                i <= rows@.len(),
                forall|k: int| 0 <= k < items@.len() ==> item_passes(*filter, #[trigger] items@[k]),
            decreases rows@.len() - i,
        {
            let raw = match book_row_from_cells(&rows[i]) {
                Some(raw) => raw,
                None => return Err(row_shape_error()),
            };
            let item = match book_item_from_raw(raw) {
                Ok(item) => item,
                Err(e) => return Err(e),
            };
            let facts = list_facts(&item);
            if book_matches_filter(filter, &facts) {
                let tagged = match filter.tag_id {
                    Some(tag_id) => {
                        let probe = int_pair_statement(ENTRY_HAS_TAG_SQL, item.entry_id, tag_id);
                        match sql_i64_value(connection, probe.sql, &probe.params) {
                            Ok(v) => v != 0,
                            Err(e) => return Err(MediaError::from_sql(&e)),
                        }
                    },
                    None => true,
                };
                if tagged {
                    proof {
                        assert(facts_of(item, facts) && book_matches(*filter, facts));
                        assert(item_passes(*filter, item));
                    }
                    items.push(item);
                }
            }
            i = i + 1;
        }
        Ok(items)
    }
}

} // verus!
