//! The media library's statements: settings, tags, streaming links and the
//! watch-next queue, each run on the application database.
use crate::database::{
    is_database_error, lookup_outcome, sql_begin, sql_commit, sql_execute, sql_i64_rows, sql_in, sql_link_row, sql_link_rows,
    sql_i64_value, sql_optional_i64, sql_optional_identity, sql_optional_text, sql_settings_row, sql_tag_row, sql_tag_rows,
    sql_episode_rows, sql_season_rows, AppDatabase, EpisodeRow, LinkRow, SeasonRow, SqlParam, TagRow,
};
use crate::media::{
    MediaEpisodeRecord, MediaSeasonRecord, MediaError, MediaErrorKind, MediaSettingsRecord, MediaStreamingLinkInput, MediaStreamingLinkRecord,
    MediaTagRecord,
};
use crate::text::{
    chars_of, extend_chars, extend_str, i64_to_decimal, signed_decimal, string_of, trim, trim_chars, upper_ascii,
};
use crate::media_query::{int_arg, params_view, text_arg};
use crate::statements::{
    flag_arg, flag_param, int_pair_statement, int_param, int_statement, owned_text_param,
    plain_statement, renumber_queue, renumber_statements, renumbering, run_logged, run_statement, run_statements, statement_view, StatementView,
    text_statement, SqlStatement,
};
use vstd::prelude::*;

verus! {

/// The message for a tag id that names no tag.
pub open spec fn missing_tag_message(tag_id: i64) -> Seq<char> {
    "Media tag "@ + signed_decimal(tag_id as int) + " was not found."@
}

pub fn missing_tag_text(tag_id: i64) -> (r: String)
    ensures
        r@ == missing_tag_message(tag_id),
{
    let mut v = chars_of("Media tag ");
    let d = i64_to_decimal(tag_id);
    extend_chars(&mut v, &d);
    extend_str(&mut v, " was not found.");
    string_of(&v)
}

/// Whether an error is a database error or the not-found error `message`.
pub open spec fn database_or_not_found(e: MediaError, message: Seq<char>) -> bool {
    is_database_error(e) || (e.kind == MediaErrorKind::NotFound && e.message@ == message)
}

/// The parameters that find the entry of a TMDB title: its id and media
/// type.
pub fn external_entry_params(external_id: i64, external_media_type: &str) -> (r: Vec<SqlParam>)
    ensures
        r@.len() == 2,
        r@[0] == SqlParam::Integer(external_id),
        r@[1] matches SqlParam::Text(t) && t@ == external_media_type@,
{
    let mut params: Vec<SqlParam> = Vec::new();
    params.push(SqlParam::Integer(external_id));
    params.push(SqlParam::Text(String::from_str(external_media_type)));
    params
}

// ------------------------------------------------------------ statements

pub const SOURCE_IDENTITY_SQL: &'static str = "SELECT title.source_key, title.external_id, title.external_media_type FROM obj_media_library_entry entry JOIN obj_media_title title ON title.id = entry.media_title_id WHERE entry.id = ?1";

pub const QUEUED_ENTRIES_SQL: &'static str = "SELECT id FROM obj_media_library_entry WHERE queue_position IS NOT NULL ORDER BY queue_position, id";

pub const PARK_QUEUE_SQL: &'static str = "UPDATE obj_media_library_entry SET queue_position = -id WHERE queue_position IS NOT NULL";

pub const QUEUE_POSITION_SQL: &'static str = "UPDATE obj_media_library_entry SET queue_position = ?2 WHERE id = ?1";

pub const ENTRY_TITLE_SQL: &'static str = "SELECT media_title_id FROM obj_media_library_entry WHERE id = ?1";

pub const DELETE_TITLE_SQL: &'static str = "DELETE FROM obj_media_title WHERE id = ?1";

pub const INSERT_TAG_SQL: &'static str = "INSERT OR IGNORE INTO obj_media_tag (name) VALUES (?1)";

pub const FIND_TAG_SQL: &'static str = "SELECT id, name, created_at, updated_at FROM obj_media_tag WHERE name = ?1 COLLATE NOCASE";

pub const ENTRY_LINKS_SQL: &'static str = "SELECT id, media_library_entry_id, provider_name, url, link_type, is_preferred, notes, created_at, updated_at FROM obj_media_streaming_link WHERE media_library_entry_id = ?1 ORDER BY is_preferred DESC, provider_name COLLATE NOCASE, id";

pub const LINK_BELONGS_SQL: &'static str = "SELECT EXISTS(SELECT 1 FROM obj_media_streaming_link WHERE id = ?1 AND media_library_entry_id = ?2)";

pub const PREFER_LINK_SQL: &'static str = "UPDATE obj_media_streaming_link SET is_preferred = CASE WHEN id = ?2 THEN 1 ELSE 0 END, updated_at = datetime('now', 'localtime') WHERE media_library_entry_id = ?1";

pub const LINK_BY_ID_SQL: &'static str = "SELECT id, media_library_entry_id, provider_name, url, link_type, is_preferred, notes, created_at, updated_at FROM obj_media_streaming_link WHERE id = ?1";

pub const CLEAR_PREFERRED_SQL: &'static str = "UPDATE obj_media_streaming_link SET is_preferred = 0 WHERE media_library_entry_id = ?1";

pub const INSERT_LINK_SQL: &'static str = "INSERT INTO obj_media_streaming_link (media_library_entry_id, provider_name, url, link_type, is_preferred, notes) SELECT ?1, ?2, ?3, ?4, ?5, ?6 WHERE EXISTS (SELECT 1 FROM obj_media_library_entry WHERE id = ?1)";

pub const LINK_ENTRY_SQL: &'static str = "SELECT media_library_entry_id FROM obj_media_streaming_link WHERE id = ?1";

pub const UPDATE_LINK_SQL: &'static str = "UPDATE obj_media_streaming_link SET provider_name = ?2, url = ?3, link_type = ?4, is_preferred = ?5, notes = ?6, updated_at = datetime('now', 'localtime') WHERE id = ?1";

pub const PREFERRED_LINK_URL_SQL: &'static str = "SELECT url FROM obj_media_streaming_link WHERE media_library_entry_id = ?1 AND is_preferred = 1 LIMIT 1";

pub const REGION_PAGE_SQL: &'static str = "SELECT snapshot.source_link_url FROM obj_media_library_entry entry JOIN obj_media_provider_snapshot snapshot ON snapshot.media_title_id = entry.media_title_id JOIN obj_media_setting setting ON setting.id = 1 WHERE entry.id = ?1 AND snapshot.region_code = setting.region_code AND snapshot.source_link_url <> '' LIMIT 1";

/// The statement that stores a tag, and the one that reads it back, both
/// under the trimmed name.
pub fn tag_statement(sql: &'static str, name: &str) -> (r: SqlStatement)
    ensures
        statement_view(r) == (sql@, seq![text_arg(trim(name@))]),
{
    text_statement(sql, string_of(&trim_chars(&chars_of(name))))
}

/// The values a link input is stored with, after the entry or link id:
/// trimmed provider name and URL, the trimmed type in upper case, the
/// preferred flag, trimmed notes.
pub open spec fn link_args(first: i64, input: MediaStreamingLinkInput) -> Seq<(u8, i64, Seq<char>)> {
    seq![
        int_arg(first),
        text_arg(trim(input.provider_name@)),
        text_arg(trim(input.url@)),
        text_arg(upper_ascii(trim(input.link_type@))),
        flag_arg(input.is_preferred),
        text_arg(trim(input.notes@)),
    ]
}

/// The statement that stores a link input (`INSERT_LINK_SQL` under an
/// entry id, `UPDATE_LINK_SQL` under a link id).
pub fn link_statement(sql: &'static str, first: i64, input: &MediaStreamingLinkInput) -> (r:
    SqlStatement)
    ensures
        statement_view(r) == (sql@, link_args(first, *input)),
{
    let mut p: Vec<SqlParam> = Vec::new();
    p.push(int_param(first));
    p.push(owned_text_param(string_of(&trim_chars(&chars_of(input.provider_name.as_str())))));
    p.push(owned_text_param(string_of(&trim_chars(&chars_of(input.url.as_str())))));
    p.push(
        owned_text_param(
            string_of(&crate::text::upper_ascii_chars(&trim_chars(&chars_of(input.link_type.as_str())))),
        ),
    );
    p.push(flag_param(input.is_preferred));
    p.push(owned_text_param(string_of(&trim_chars(&chars_of(input.notes.as_str())))));
    let r = SqlStatement { sql, params: p };
    assert(params_view(r.params@) =~= link_args(first, *input));
    r
}

/// A statement that deleted `changed` rows: none means the row was missing.
pub fn deletion_outcome(changed: usize, missing: &str) -> (r: Result<(), MediaError>)
    ensures
        changed == 0 ==> (r matches Err(e) && e.kind == MediaErrorKind::NotFound && e.message@
            == missing@),
        changed > 0 ==> r is Ok,
{
    if changed == 0 {
        Err(MediaError::not_found(missing))
    } else {
        Ok(())
    }
}

/// The settings record that a settings row holds.
pub fn settings_record(row: (String, String, i64, String)) -> (r: MediaSettingsRecord)
    ensures
        r.region_code@ == row.0@,
        r.metadata_language@ == row.1@,
        r.include_specials_in_completion == (row.2 != 0),
        r.updated_at@ == row.3@,
{
    let (region_code, metadata_language, specials, updated_at) = row;
    MediaSettingsRecord {
        region_code,
        metadata_language,
        include_specials_in_completion: specials != 0,
        updated_at,
    }
}

/// The tag record that a tag row holds.
pub fn tag_record(row: TagRow) -> (r: MediaTagRecord)
    ensures
        r.id == row.0,
        r.name@ == row.1@,
        r.created_at@ == row.2@,
        r.updated_at@ == row.3@,
{
    let (id, name, created_at, updated_at) = row;
    MediaTagRecord { id, name, created_at, updated_at }
}

/// The streaming-link record that a link row holds.
pub fn link_record(row: LinkRow) -> (r: MediaStreamingLinkRecord)
    ensures
        r.id == row.0,
        r.media_library_entry_id == row.1,
        r.provider_name@ == row.2@,
        r.url@ == row.3@,
        r.link_type@ == row.4@,
        r.is_preferred == (row.5 != 0),
        r.notes@ == row.6@,
        r.created_at@ == row.7@,
        r.updated_at@ == row.8@,
{
    let (id, media_library_entry_id, provider_name, url, link_type, preferred, notes, created_at, updated_at) = row;
    MediaStreamingLinkRecord {
        id,
        media_library_entry_id,
        provider_name,
        url,
        link_type,
        is_preferred: preferred != 0,
        notes,
        created_at,
        updated_at,
    }
}

/// Where to open a title: its preferred manual link, else the provider
/// page saved for the current region.
pub fn streaming_target(preferred: Option<String>, fallback: Option<String>) -> (r: Result<
    String,
    MediaError,
>)
    ensures
        preferred matches Some(u) ==> (r matches Ok(x) && x@ == u@),
        preferred is None ==> (fallback matches Some(u) ==> (r matches Ok(x) && x@ == u@)),
        preferred is None && fallback is None ==> (r matches Err(e) && e.kind
            == MediaErrorKind::NotFound && e.message@
            == "No preferred manual link or TMDB availability page is saved for this title."@),
{
    match preferred {
        Some(u) => Ok(u),
        None => match fallback {
            Some(u) => Ok(u),
            None => Err(
                MediaError::not_found(
                    "No preferred manual link or TMDB availability page is saved for this title.",
                ),
            ),
        },
    }
}

pub struct MediaRepository<'a> {
    pub database: &'a AppDatabase,
}

/// Deletes a title (its entry goes with it) and renumbers the watch-next
/// queue: the title is deleted (`DELETE_TITLE_SQL`), the queue parked, and
/// each queued entry, in its order, takes the next place from 1
/// (`renumbering`); the result is the queued entries read.
fn delete_and_renumber(inner: &rusqlite::Connection, title_id: i64, log: &mut Ghost<Seq<StatementView>>) -> (r: Result<
    Ghost<Seq<i64>>,
    MediaError,
>)
    ensures
        r matches Err(e) ==> is_database_error(e),
        r matches Ok(ids) ==> final(log)@ == old(log)@ + seq![
            (DELETE_TITLE_SQL@, seq![int_arg(title_id)]),
            (PARK_QUEUE_SQL@, seq![]),
        ] + renumbering(QUEUE_POSITION_SQL@, ids@),
{
    let ghost start = log@;
    match run_logged(inner, &int_statement(DELETE_TITLE_SQL, title_id), log) {
        Ok(_) => {},
        Err(e) => return Err(e),
    }
    let ids = match renumber_queue(inner, QUEUED_ENTRIES_SQL, PARK_QUEUE_SQL, QUEUE_POSITION_SQL, log) {
        Ok(ids) => ids,
        Err(e) => return Err(e),
    };
    assert(log@ =~= start + seq![
        (DELETE_TITLE_SQL@, seq![int_arg(title_id)]),
        (PARK_QUEUE_SQL@, seq![]),
    ] + renumbering(QUEUE_POSITION_SQL@, ids@));
    Ok(ids)
}

impl<'a> MediaRepository<'a> {
    pub fn new(database: &'a AppDatabase) -> (r: MediaRepository<'a>)
        ensures
            r.database == database,
    {
        MediaRepository { database }
    }

    /// The settings row.
    pub fn get_settings(&self) -> (r: Result<MediaSettingsRecord, MediaError>)
        ensures
            r matches Err(e) ==> is_database_error(e),
    {
        let connection = self.database.connection();
        match sql_settings_row(
            connection,
            "SELECT region_code, metadata_language, include_specials_in_completion, updated_at FROM obj_media_setting WHERE id = 1",
        ) {
            Ok(row) => Ok(settings_record(row)),
            Err(e) => Err(MediaError::from_sql(&e)),
        }
    }

    /// The library entry of a TMDB title, if one is in the library.
    pub fn find_external_entry(&self, external_id: i64, external_media_type: &str) -> (r: Result<
        Option<i64>,
        MediaError,
    >)
        ensures
            r matches Err(e) ==> is_database_error(e),
    {
        let params = external_entry_params(external_id, external_media_type);
        match sql_optional_i64(
            self.database.connection(),
            "
                SELECT entry.id
                FROM obj_media_library_entry entry
                JOIN obj_media_title title ON title.id = entry.media_title_id
                WHERE title.source_key = 'tmdb'
                  AND title.external_id = ?1
                  AND title.external_media_type = ?2
                ",
            &params,
        ) {
            Ok(found) => Ok(found),
            Err(e) => Err(MediaError::from_sql(&e)),
        }
    }


    /// The source key, external id and external media type of an entry's
    /// title.
    pub fn source_identity_for_entry(&self, entry_id: i64) -> (r: Result<
        (String, Option<i64>, Option<String>),
        MediaError,
    >)
        ensures
            r matches Err(e) ==> database_or_not_found(e, "Media library entry was not found."@),
    {
        let query = int_statement(SOURCE_IDENTITY_SQL, entry_id);
        let found = sql_optional_identity(self.database.connection(), query.sql, &query.params);
        lookup_outcome(found, MediaError::not_found("Media library entry was not found."))
    }

    /// Deletes an entry together with its title, then renumbers the queue;
    /// all in one transaction: finds the entry's title (`ENTRY_TITLE_SQL`;
    /// none is not found), then `delete_and_renumber` deletes that title
    /// (whose entry goes with it) and renumbers the queue.
    pub fn delete_entry(&self, entry_id: i64) -> (r: Result<(), MediaError>)
        ensures
            r matches Err(e) ==> database_or_not_found(e, "Media library entry was not found."@),
    {
        let connection = self.database.connection();
        let transaction = match sql_begin(connection) {
            Ok(t) => t,
            Err(e) => return Err(MediaError::from_sql(&e)),
        };
        let inner = sql_in(&transaction);
        let find = int_statement(ENTRY_TITLE_SQL, entry_id);
        let title_id = match lookup_outcome(
            sql_optional_i64(inner, find.sql, &find.params),
            MediaError::not_found("Media library entry was not found."),
        ) {
            Ok(v) => v,
            Err(e) => return Err(e),
        };
        let mut log: Ghost<Seq<StatementView>> = Ghost(Seq::empty());
        match delete_and_renumber(inner, title_id, &mut log) {
            Ok(_) => {},
            Err(e) => return Err(e),
        }
        match sql_commit(transaction) {
            Ok(()) => Ok(()),
            Err(e) => Err(MediaError::from_sql(&e)),
        }
    }

    /// Every tag, by name ignoring case.
    pub fn list_tags(&self) -> (r: Result<Vec<MediaTagRecord>, MediaError>)
        ensures
            r matches Err(e) ==> is_database_error(e),
    {
        let none: Vec<SqlParam> = Vec::new();
        match sql_tag_rows(
            self.database.connection(),
            "SELECT id, name, created_at, updated_at FROM obj_media_tag ORDER BY name COLLATE NOCASE",
            &none,
        ) {
            Ok(rows) => Ok(tag_records(rows)),
            Err(e) => Err(MediaError::from_sql(&e)),
        }
    }

    /// Adds a tag under the trimmed name unless one exists (ignoring case;
    /// `INSERT_TAG_SQL`), and returns the stored tag of that name
    /// (`FIND_TAG_SQL`, ignoring case).
    pub fn create_tag(&self, name: &str) -> (r: Result<MediaTagRecord, MediaError>)
        ensures
            r matches Err(e) ==> is_database_error(e),
    {
        let connection = self.database.connection();
        match run_statement(connection, &tag_statement(INSERT_TAG_SQL, name)) {
            Ok(_) => {},
            Err(e) => return Err(e),
        }
        let find = tag_statement(FIND_TAG_SQL, name);
        match sql_tag_row(connection, find.sql, &find.params) {
            Ok(row) => Ok(tag_record(row)),
            Err(e) => Err(MediaError::from_sql(&e)),
        }
    }

    pub fn delete_tag(&self, tag_id: i64) -> (r: Result<(), MediaError>)
        ensures
            r matches Err(e) ==> database_or_not_found(e, "Media tag was not found."@),
    {
        let mut params: Vec<SqlParam> = Vec::new();
        params.push(SqlParam::Integer(tag_id));
        match sql_execute(self.database.connection(), "DELETE FROM obj_media_tag WHERE id = ?1", &params) {
            Ok(changed) => deletion_outcome(changed, "Media tag was not found."),
            Err(e) => Err(MediaError::from_sql(&e)),
        }
    }

    /// Replaces an entry's tags with the given ones, in one transaction; a
    /// tag that does not exist (or is given twice) stops the change.
    pub fn set_entry_tags(&self, entry_id: i64, tag_ids: &[i64]) -> (r: Result<(), MediaError>)
        ensures
            r matches Err(e) ==> database_or_not_found(e, "Media library entry was not found."@)
                || (e.kind == MediaErrorKind::NotFound && exists|i: int|
                0 <= i < tag_ids@.len() && e.message@ == missing_tag_message(#[trigger] tag_ids@[i])),
    {
        let transaction = match sql_begin(self.database.connection()) {
            Ok(t) => t,
            Err(e) => return Err(MediaError::from_sql(&e)),
        };
        let inner = sql_in(&transaction);
        let mut params: Vec<SqlParam> = Vec::new();
        params.push(SqlParam::Integer(entry_id));
        let exists = match sql_i64_value(
            inner,
            "SELECT EXISTS(SELECT 1 FROM obj_media_library_entry WHERE id = ?1)",
            &params,
        ) {
            Ok(v) => v != 0,
            Err(e) => return Err(MediaError::from_sql(&e)),
        };
        if !exists {
            return Err(MediaError::not_found("Media library entry was not found."));
        }
        match sql_execute(
            inner,
            "DELETE FROM n2n_media_library_entry_tag WHERE media_library_entry_id = ?1",
            &params,
        ) {
            Ok(_) => {},
            Err(e) => return Err(MediaError::from_sql(&e)),
        }
        let mut index: usize = 0;
        while index < tag_ids.len()
            invariant
                index <= tag_ids@.len(),
            decreases tag_ids@.len() - index,
        {
            let tag_id = tag_ids[index];
            let mut pair: Vec<SqlParam> = Vec::new();
            pair.push(SqlParam::Integer(entry_id));
            pair.push(SqlParam::Integer(tag_id));
            let inserted = match sql_execute(
                inner,
                "
                INSERT OR IGNORE INTO n2n_media_library_entry_tag (
                    media_library_entry_id, media_tag_id
                )
                SELECT ?1, id FROM obj_media_tag WHERE id = ?2
                ",
                &pair,
            ) {
                Ok(n) => n,
                Err(e) => return Err(MediaError::from_sql(&e)),
            };
            if inserted == 0 {
                let message = missing_tag_text(tag_id);
                assert(tag_ids@[index as int] == tag_id);
                return Err(MediaError::not_found(message.as_str()));
            }
            index = index + 1;
        }
        match sql_commit(transaction) {
            Ok(()) => Ok(()),
            Err(e) => Err(MediaError::from_sql(&e)),
        }
    }

    /// An entry's manual streaming links: the preferred one first, then by
    /// provider name ignoring case, then by id.
    pub fn list_streaming_links(&self, entry_id: i64) -> (r: Result<
        Vec<MediaStreamingLinkRecord>,
        MediaError,
    >)
        ensures
            r matches Err(e) ==> is_database_error(e),
    {
        Self::links_of(self.database.connection(), entry_id)
    }

    fn links_of(connection: &rusqlite::Connection, entry_id: i64) -> (r: Result<
        Vec<MediaStreamingLinkRecord>,
        MediaError,
    >)
        ensures
            r matches Err(e) ==> is_database_error(e),
    {
        let query = int_statement(ENTRY_LINKS_SQL, entry_id);
        match sql_link_rows(connection, query.sql, &query.params) {
            Ok(rows) => Ok(link_records(rows)),
            Err(e) => Err(MediaError::from_sql(&e)),
        }
    }

    pub fn delete_streaming_link(&self, link_id: i64) -> (r: Result<(), MediaError>)
        ensures
            r matches Err(e) ==> database_or_not_found(e, "Manual streaming link was not found."@),
    {
        let mut params: Vec<SqlParam> = Vec::new();
        params.push(SqlParam::Integer(link_id));
        match sql_execute(
            self.database.connection(),
            "DELETE FROM obj_media_streaming_link WHERE id = ?1",
            &params,
        ) {
            Ok(changed) => deletion_outcome(changed, "Manual streaming link was not found."),
            Err(e) => Err(MediaError::from_sql(&e)),
        }
    }

    /// Makes one link the entry's preferred link (and no other), if it is
    /// the entry's: checks it belongs (`LINK_BELONGS_SQL`), then marks it
    /// and only it preferred among the entry's links (`PREFER_LINK_SQL`);
    /// returns the entry's links afterwards (`ENTRY_LINKS_SQL`).
    pub fn set_preferred_streaming_link(&self, entry_id: i64, link_id: i64) -> (r: Result<
        Vec<MediaStreamingLinkRecord>,
        MediaError,
    >)
        ensures
            r matches Err(e) ==> database_or_not_found(
                e,
                "Manual streaming link does not belong to this entry."@,
            ),
    {
        let connection = self.database.connection();
        let transaction = match sql_begin(connection) {
            Ok(t) => t,
            Err(e) => return Err(MediaError::from_sql(&e)),
        };
        let inner = sql_in(&transaction);
        let check_link = int_pair_statement(LINK_BELONGS_SQL, link_id, entry_id);
        let belongs = match sql_optional_i64(inner, check_link.sql, &check_link.params) {
            Ok(Some(flag)) => flag != 0,
            Ok(None) => false,
            Err(e) => return Err(MediaError::from_sql(&e)),
        };
        if !belongs {
            return Err(MediaError::not_found("Manual streaming link does not belong to this entry."));
        }
        match run_statement(inner, &int_pair_statement(PREFER_LINK_SQL, entry_id, link_id)) {
            Ok(_) => {},
            Err(e) => return Err(e),
        }
        match sql_commit(transaction) {
            Ok(()) => {},
            Err(e) => return Err(MediaError::from_sql(&e)),
        }
        self.list_streaming_links(entry_id)
    }


    fn link_by_id(connection: &rusqlite::Connection, link_id: i64) -> (r: Result<
        MediaStreamingLinkRecord,
        MediaError,
    >)
        ensures
            r matches Err(e) ==> is_database_error(e),
    {
        let query = int_statement(LINK_BY_ID_SQL, link_id);
        match sql_link_row(connection, query.sql, &query.params) {
            Ok(row) => Ok(link_record(row)),
            Err(e) => Err(MediaError::from_sql(&e)),
        }
    }

    fn clear_preferred(connection: &rusqlite::Connection, entry_id: i64) -> (r: Result<(), MediaError>)
        ensures
            r matches Err(e) ==> is_database_error(e),
    {
        match run_statement(connection, &int_statement(CLEAR_PREFERRED_SQL, entry_id)) {
            Ok(_) => Ok(()),
            Err(e) => Err(e),
        }
    }

    /// Adds a manual streaming link to an entry (clearing the entry's other
    /// preferred link first when this one is preferred, `CLEAR_PREFERRED_SQL`);
    /// one transaction. The link is stored with
    /// `link_statement(INSERT_LINK_SQL, entry_id, input)`, which stores
    /// nothing when the entry is missing (not found), and read back
    /// (`LINK_BY_ID_SQL`).
    pub fn create_streaming_link(&self, entry_id: i64, input: &MediaStreamingLinkInput) -> (r: Result<
        MediaStreamingLinkRecord,
        MediaError,
    >)
        ensures
            r matches Err(e) ==> database_or_not_found(e, "Media library entry was not found."@),
    {
        let transaction = match sql_begin(self.database.connection()) {
            Ok(t) => t,
            Err(e) => return Err(MediaError::from_sql(&e)),
        };
        let inner = sql_in(&transaction);
        if input.is_preferred {
            match Self::clear_preferred(inner, entry_id) {
                Ok(()) => {},
                Err(e) => return Err(e),
            }
        }
        let inserted = match run_statement(inner, &link_statement(INSERT_LINK_SQL, entry_id, input)) {
            Ok(n) => n,
            Err(e) => return Err(e),
        };
        if inserted == 0 {
            return Err(MediaError::not_found("Media library entry was not found."));
        }
        let id = crate::database::sql_last_insert_rowid(inner);
        let record = match Self::link_by_id(inner, id) {
            Ok(r) => r,
            Err(e) => return Err(e),
        };
        match sql_commit(transaction) {
            Ok(()) => Ok(record),
            Err(e) => Err(MediaError::from_sql(&e)),
        }
    }

    /// Rewrites a manual streaming link (clearing its entry's other
    /// preferred link first when it becomes preferred); one transaction.
    pub fn update_streaming_link(&self, link_id: i64, input: &MediaStreamingLinkInput) -> (r: Result<
        MediaStreamingLinkRecord,
        MediaError,
    >)
        ensures
            r matches Err(e) ==> database_or_not_found(e, "Manual streaming link was not found."@),
    {
        let transaction = match sql_begin(self.database.connection()) {
            Ok(t) => t,
            Err(e) => return Err(MediaError::from_sql(&e)),
        };
        let inner = sql_in(&transaction);
        let find = int_statement(LINK_ENTRY_SQL, link_id);
        let entry_id = match lookup_outcome(
            sql_optional_i64(inner, find.sql, &find.params),
            MediaError::not_found("Manual streaming link was not found."),
        ) {
            Ok(v) => v,
            Err(e) => return Err(e),
        };
        if input.is_preferred {
            match Self::clear_preferred(inner, entry_id) {
                Ok(()) => {},
                Err(e) => return Err(e),
            }
        }
        match run_statement(inner, &link_statement(UPDATE_LINK_SQL, link_id, input)) {
            Ok(_) => {},
            Err(e) => return Err(e),
        }
        let record = match Self::link_by_id(inner, link_id) {
            Ok(r) => r,
            Err(e) => return Err(e),
        };
        match sql_commit(transaction) {
            Ok(()) => Ok(record),
            Err(e) => Err(MediaError::from_sql(&e)),
        }
    }

    /// The URL to open for an entry (see `streaming_target`): its preferred
    /// manual link (`PREFERRED_LINK_URL_SQL`), else the provider page saved
    /// for the current region (`REGION_PAGE_SQL`).
    pub fn resolve_streaming_target(&self, entry_id: i64) -> (r: Result<String, MediaError>)
        ensures
            r matches Err(e) ==> database_or_not_found(
                e,
                "No preferred manual link or TMDB availability page is saved for this title."@,
            ),
    {
        let connection = self.database.connection();
        let preferred_query = int_statement(PREFERRED_LINK_URL_SQL, entry_id);
        let preferred = match sql_optional_text(connection, preferred_query.sql, &preferred_query.params) {
            Ok(u) => u,
            Err(e) => return Err(MediaError::from_sql(&e)),
        };
        if preferred.is_some() {
            return streaming_target(preferred, None);
        }
        let fallback_query = int_statement(REGION_PAGE_SQL, entry_id);
        let fallback = match sql_optional_text(connection, fallback_query.sql, &fallback_query.params) {
            Ok(u) => u,
            Err(e) => return Err(MediaError::from_sql(&e)),
        };
        streaming_target(None, fallback)
    }
}

// ------------------------------------------------------------ seasons

/// The episode record of an episode row: the flags are set when their
/// columns are not 0.
pub fn episode_record(row: EpisodeRow) -> (r: MediaEpisodeRecord)
    ensures
        r.id == row.id,
        r.external_id == row.external_id,
        r.season_number == row.season_number,
        r.episode_number == row.episode_number,
        r.name@ == row.name@,
        r.overview@ == row.overview@,
        r.air_date@ == row.air_date@,
        r.runtime_minutes == row.runtime_minutes,
        r.still_path@ == row.still_path@,
        r.is_present_in_source == (row.is_present_in_source != 0),
        r.is_watched == (row.is_watched != 0),
        r.watched_at@ == row.watched_at@,
        r.notes@ == row.notes@,
{
    MediaEpisodeRecord {
        id: row.id,
        external_id: row.external_id,
        season_number: row.season_number,
        episode_number: row.episode_number,
        name: row.name,
        overview: row.overview,
        air_date: row.air_date,
        runtime_minutes: row.runtime_minutes,
        still_path: row.still_path,
        is_present_in_source: row.is_present_in_source != 0,
        is_watched: row.is_watched != 0,
        watched_at: row.watched_at,
        notes: row.notes,
    }
}

/// How many of the episodes are present in the source, and how many of
/// those are watched.
pub open spec fn episode_counts(episodes: Seq<MediaEpisodeRecord>) -> (nat, nat)
    decreases episodes.len(),
{
    if episodes.len() == 0 {
        (0, 0)
    } else {
        let (present, watched) = episode_counts(episodes.drop_last());
        let e = episodes.last();
        (
            if e.is_present_in_source { present + 1 } else { present },
            if e.is_present_in_source && e.is_watched { watched + 1 } else { watched },
        )
    }
}

/// A season's progress as (watched, total): the present episodes and the
/// watched ones among them, or nothing for specials (season 0) when the
/// settings leave them out.
pub open spec fn season_progress(include_specials: bool, season_number: i64, episodes: Seq<
    MediaEpisodeRecord,
>) -> (i64, i64) {
    if include_specials || season_number != 0 {
        let (present, watched) = episode_counts(episodes);
        (watched as i64, present as i64)
    } else {
        (0, 0)
    }
}

pub fn season_progress_of(include_specials: bool, season_number: i64, episodes: &Vec<
    MediaEpisodeRecord,
>) -> (r: (i64, i64))
    ensures
        r == season_progress(include_specials, season_number, episodes@),
{
    if !(include_specials || season_number != 0) {
        return (0, 0);
    }
    let mut present: usize = 0;
    let mut watched: usize = 0;
    let mut i: usize = 0;
    while i < episodes.len()
        invariant
            i <= episodes.len(),
            (present as nat, watched as nat) == episode_counts(episodes@.take(i as int)),
            watched <= present <= i,
        decreases episodes.len() - i,
    {
        assert(episodes@.take(i + 1).drop_last() =~= episodes@.take(i as int));
        if episodes[i].is_present_in_source {
            present = present + 1;
            if episodes[i].is_watched {
                watched = watched + 1;
            }
        }
        i = i + 1;
    }
    assert(episodes@.take(episodes.len() as int) =~= episodes@);
    (watched as i64, present as i64)
}

/// The progress a library summary shows as (movie watched, watched count,
/// total): a movie is one item, watched once it has a completion time and
/// marked watched once it has a completion or a watch time; a series keeps
/// its episode counts.
pub fn summary_progress(
    content_type: crate::media::MediaContentType,
    completed_at: &str,
    last_watched_at: &str,
    watched_count: i64,
    progress_total: i64,
) -> (r: (bool, i64, i64))
    ensures
        r == (if content_type == crate::media::MediaContentType::Movie {
            (
                completed_at@.len() > 0 || last_watched_at@.len() > 0,
                if completed_at@.len() > 0 { 1i64 } else { 0i64 },
                1i64,
            )
        } else {
            (false, watched_count, progress_total)
        }),
{
    match content_type {
        crate::media::MediaContentType::Movie => {
            let completed = chars_of(completed_at).len() > 0;
            let watched = chars_of(last_watched_at).len() > 0;
            (completed || watched, if completed { 1 } else { 0 }, 1)
        },
        crate::media::MediaContentType::Series => (false, watched_count, progress_total),
    }
}

/// The statement that reads a season's episodes with their progress, by
/// episode number; its one parameter is the season id.
pub open spec fn episode_rows_sql() -> Seq<char> {
    "
            SELECT episode.id, episode.external_id, episode.season_number,
                   episode.episode_number, episode.name, episode.overview,
                   episode.air_date, episode.runtime_minutes, episode.still_path,
                   episode.is_present_in_source, COALESCE(progress.is_watched, 0),
                   COALESCE(progress.watched_at, ''), COALESCE(progress.notes, '')
            FROM obj_media_episode episode
            LEFT JOIN obj_media_episode_progress progress ON progress.episode_id = episode.id
            WHERE episode.season_id = ?1
            ORDER BY episode.episode_number
            "@
}

/// The statement and parameters that read the episodes of `season_id`.
pub fn episode_rows_query(season_id: i64) -> (r: (&'static str, Vec<SqlParam>))
    ensures
        r.0@ == episode_rows_sql(),
        r.1@ == seq![SqlParam::Integer(season_id)],
{
    let mut params: Vec<SqlParam> = Vec::new();
    params.push(SqlParam::Integer(season_id));
    (
        "
            SELECT episode.id, episode.external_id, episode.season_number,
                   episode.episode_number, episode.name, episode.overview,
                   episode.air_date, episode.runtime_minutes, episode.still_path,
                   episode.is_present_in_source, COALESCE(progress.is_watched, 0),
                   COALESCE(progress.watched_at, ''), COALESCE(progress.notes, '')
            FROM obj_media_episode episode
            LEFT JOIN obj_media_episode_progress progress ON progress.episode_id = episode.id
            WHERE episode.season_id = ?1
            ORDER BY episode.episode_number
            ",
        params,
    )
}

/// The statement that reads a title's seasons, by season number; its one
/// parameter is the title id.
pub open spec fn season_rows_sql() -> Seq<char> {
    "
                SELECT id, external_id, season_number, name, overview, air_date,
                       poster_path, episode_count, is_present_in_source
                FROM obj_media_season
                WHERE media_title_id = ?1
                ORDER BY season_number
                "@
}

/// The statement and parameters that read the seasons of `title_id`.
pub fn season_rows_query(title_id: i64) -> (r: (&'static str, Vec<SqlParam>))
    ensures
        r.0@ == season_rows_sql(),
        r.1@ == seq![SqlParam::Integer(title_id)],
{
    let mut params: Vec<SqlParam> = Vec::new();
    params.push(SqlParam::Integer(title_id));
    (
        "
                SELECT id, external_id, season_number, name, overview, air_date,
                       poster_path, episode_count, is_present_in_source
                FROM obj_media_season
                WHERE media_title_id = ?1
                ORDER BY season_number
                ",
        params,
    )
}

/// `e` is the episode record of `row` (see `episode_record`).
pub open spec fn is_episode_record(row: EpisodeRow, e: MediaEpisodeRecord) -> bool {
    &&& e.id == row.id
    &&& e.external_id == row.external_id
    &&& e.season_number == row.season_number
    &&& e.episode_number == row.episode_number
    &&& e.name@ == row.name@
    &&& e.overview@ == row.overview@
    &&& e.air_date@ == row.air_date@
    &&& e.runtime_minutes == row.runtime_minutes
    &&& e.still_path@ == row.still_path@
    &&& e.is_present_in_source == (row.is_present_in_source != 0)
    &&& e.is_watched == (row.is_watched != 0)
    &&& e.watched_at@ == row.watched_at@
    &&& e.notes@ == row.notes@
}

/// `e` is the episode record of some episode row.
pub open spec fn is_read_episode(e: MediaEpisodeRecord) -> bool {
    exists|row: EpisodeRow| is_episode_record(row, e)
}

/// The episode records of the rows, in order.
pub fn episode_records(rows: Vec<EpisodeRow>) -> (r: Vec<MediaEpisodeRecord>)
    ensures
        r@.len() == rows@.len(),
        forall|i: int| 0 <= i < rows@.len() ==> is_episode_record(rows@[i], #[trigger] r@[i]),
{
    let ghost all = rows@;
    let n = rows.len();
    let mut out: Vec<MediaEpisodeRecord> = Vec::new();
    let mut rows = rows;
    while rows.len() > 0
        invariant
            n == all.len(),
            out@.len() + rows@.len() == n,
            rows@ == all.skip(out@.len() as int),
            forall|i: int| 0 <= i < out@.len() ==> is_episode_record(all[i], #[trigger] out@[i]),
        decreases rows.len(),
    {
        let ghost k = out@.len();
        assert(rows@[0] == all[k as int]);
        let row = rows.remove(0);
        out.push(episode_record(row));
        assert(rows@ =~= all.skip(k as int + 1));
    }
    out
}

/// The episodes of a season with their progress, by episode number: one
/// episode record per row that `episode_rows_query` reads.
pub fn load_episodes(connection: &rusqlite::Connection, season_id: i64) -> (r: Result<
    Vec<MediaEpisodeRecord>,
    MediaError,
>)
    ensures
        r matches Err(e) ==> is_database_error(e),
        r matches Ok(episodes) ==> forall|i: int|
            0 <= i < episodes@.len() ==> is_read_episode(#[trigger] episodes@[i]),
{
    let (sql, params) = episode_rows_query(season_id);
    let rows = match sql_episode_rows(connection, sql, &params) {
        Ok(rows) => rows,
        Err(e) => return Err(MediaError::from_sql(&e)),
    };
    let ghost read = rows@;
    let out = episode_records(rows);
    assert forall|i: int| 0 <= i < out@.len() implies is_read_episode(#[trigger] out@[i]) by {
        assert(is_episode_record(read[i], out@[i]));
    }
    Ok(out)
}

/// `s` is the season record of `row` with `episodes`: the row's columns
/// (the presence flag set when its column is not 0), the episodes, and the
/// progress that `season_progress` counts.
pub open spec fn is_season_record(
    row: SeasonRow,
    episodes: Seq<MediaEpisodeRecord>,
    include_specials: bool,
    s: MediaSeasonRecord,
) -> bool {
    &&& s.id == row.id
    &&& s.external_id == row.external_id
    &&& s.season_number == row.season_number
    &&& s.name@ == row.name@
    &&& s.overview@ == row.overview@
    &&& s.air_date@ == row.air_date@
    &&& s.poster_path@ == row.poster_path@
    &&& s.episode_count == row.episode_count
    &&& s.is_present_in_source == (row.is_present_in_source != 0)
    &&& s.episodes@ == episodes
    &&& (s.watched_count, s.progress_total) == season_progress(
        include_specials,
        row.season_number,
        episodes,
    )
}

/// The season record of a row with its episodes.
pub fn season_record(row: SeasonRow, episodes: Vec<MediaEpisodeRecord>, include_specials: bool) -> (r:
    MediaSeasonRecord)
    ensures
        is_season_record(row, episodes@, include_specials, r),
{
    let (watched_count, progress_total) = season_progress_of(
        include_specials,
        row.season_number,
        &episodes,
    );
    MediaSeasonRecord {
        id: row.id,
        external_id: row.external_id,
        season_number: row.season_number,
        name: row.name,
        overview: row.overview,
        air_date: row.air_date,
        poster_path: row.poster_path,
        episode_count: row.episode_count,
        is_present_in_source: row.is_present_in_source != 0,
        watched_count,
        progress_total,
        episodes,
    }
}

/// The seasons of a title, by season number: one season record per row
/// that `season_rows_query` reads, in order, each with the episodes that
/// `load_episodes` gives for it and its progress as `season_progress`
/// counts it.
pub fn load_seasons(connection: &rusqlite::Connection, title_id: i64, include_specials: bool) -> (r:
    Result<Vec<MediaSeasonRecord>, MediaError>)
    ensures
        r matches Err(e) ==> is_database_error(e),
        r matches Ok(seasons) ==> forall|i: int|
            0 <= i < seasons.len() ==> ((#[trigger] seasons[i]).watched_count, seasons[i].progress_total)
                == season_progress(include_specials, seasons[i].season_number, seasons[i].episodes@),
        r matches Ok(seasons) ==> forall|i: int|
            0 <= i < seasons@.len() ==> exists|row: SeasonRow|
                is_season_record(row, seasons@[i].episodes@, include_specials, #[trigger] seasons@[i]),
{
    let (sql, params) = season_rows_query(title_id);
    let rows = match sql_season_rows(connection, sql, &params) {
        Ok(rows) => rows,
        Err(e) => return Err(MediaError::from_sql(&e)),
    };
    let mut seasons: Vec<MediaSeasonRecord> = Vec::new();
    let mut rows = rows;
    while rows.len() > 0
        invariant
            forall|i: int|
                0 <= i < seasons@.len() ==> exists|row: SeasonRow|
                    is_season_record(row, seasons@[i].episodes@, include_specials, #[trigger] seasons@[i]),
        decreases rows.len(),
    {
        let row = rows.remove(0);
        let ghost read = row;
        let episodes = match load_episodes(connection, row.id) {
            Ok(episodes) => episodes,
            Err(e) => return Err(e),
        };
        let season = season_record(row, episodes, include_specials);
        let ghost before = seasons@;
        seasons.push(season);
        assert forall|i: int| 0 <= i < seasons@.len() implies exists|row: SeasonRow|
            is_season_record(row, seasons@[i].episodes@, include_specials, #[trigger] seasons@[i]) by {
            if i < before.len() {
                assert(seasons@[i] == before[i]);
            } else {
                assert(is_season_record(read, seasons@[i].episodes@, include_specials, seasons@[i]));
            }
        }
    }
    assert forall|i: int| 0 <= i < seasons.len() implies ((#[trigger] seasons[i]).watched_count,
        seasons[i].progress_total) == season_progress(
        include_specials,
        seasons[i].season_number,
        seasons[i].episodes@,
    ) by {
        let row = choose|row: SeasonRow|
            is_season_record(row, seasons@[i].episodes@, include_specials, #[trigger] seasons@[i]);
    }
    Ok(seasons)
}



/// The tag records of the rows, in order.
pub fn tag_records(rows: Vec<TagRow>) -> (r: Vec<MediaTagRecord>)
    ensures
        r@.len() == rows@.len(),
        forall|i: int|
            0 <= i < rows@.len() ==> (#[trigger] r@[i]).id == rows@[i].0 && r@[i].name@ == rows@[i].1@
                && r@[i].created_at@ == rows@[i].2@ && r@[i].updated_at@ == rows@[i].3@,
{
    let mut out: Vec<MediaTagRecord> = Vec::new();
    let mut rows = rows;
    let ghost all = rows@;
    let n = rows.len();
    let mut i: usize = 0;
    while rows.len() > 0
        invariant
            all.len() == n,
            i + rows@.len() == all.len(),
            rows@ == all.skip(i as int),
            out@.len() == i,
            forall|j: int|
                0 <= j < i ==> (#[trigger] out@[j]).id == all[j].0 && out@[j].name@ == all[j].1@
                    && out@[j].created_at@ == all[j].2@ && out@[j].updated_at@ == all[j].3@,
        decreases rows.len(),
    {
        let row = rows.remove(0);
        assert(row == all[i as int]);
        out.push(tag_record(row));
        assert(rows@ =~= all.skip(i + 1));
        i = i + 1;
    }
    out
}

/// The link records of the rows, in order.
pub fn link_records(rows: Vec<LinkRow>) -> (r: Vec<MediaStreamingLinkRecord>)
    ensures
        r@.len() == rows@.len(),
        forall|i: int|
            0 <= i < rows@.len() ==> (#[trigger] r@[i]).id == rows@[i].0
                && r@[i].media_library_entry_id == rows@[i].1 && r@[i].url@ == rows@[i].3@
                && r@[i].is_preferred == (rows@[i].5 != 0),
{
    let mut out: Vec<MediaStreamingLinkRecord> = Vec::new();
    let mut rows = rows;
    let ghost all = rows@;
    let n = rows.len();
    let mut i: usize = 0;
    while rows.len() > 0
        invariant
            all.len() == n,
            i + rows@.len() == all.len(),
            rows@ == all.skip(i as int),
            out@.len() == i,
            forall|j: int|
                0 <= j < i ==> (#[trigger] out@[j]).id == all[j].0
                    && out@[j].media_library_entry_id == all[j].1 && out@[j].url@ == all[j].3@
                    && out@[j].is_preferred == (all[j].5 != 0),
        decreases rows.len(),
    {
        let row = rows.remove(0);
        assert(row == all[i as int]);
        out.push(link_record(row));
        assert(rows@ =~= all.skip(i + 1));
        i = i + 1;
    }
    out
}

} // verus!
