use overlay_forge::book_manual::{manual_book_import, CreateManualBookInput};
use overlay_forge::book_service::BookRepository;
use overlay_forge::books::{BookFormat, BookOwnershipStatus};
use overlay_forge::database::AppDatabase;
use overlay_forge::media::{MediaErrorKind, MediaLibraryStatus};
use overlay_forge::media_schema::migrate_schema;

fn database() -> AppDatabase {
    let connection = rusqlite::Connection::open_in_memory().expect("connection");
    migrate_schema(&connection).expect("schema should migrate");
    AppDatabase::new(connection)
}

fn manual_input(title: &str, isbn: &str) -> CreateManualBookInput {
    CreateManualBookInput {
        title: title.to_string(),
        subtitle: String::new(),
        authors: vec!["Test Author".to_string()],
        description: "A local book".to_string(),
        first_publish_year: Some(2026),
        isbn_10: String::new(),
        isbn_13: isbn.to_string(),
        publisher: "Test Press".to_string(),
        published_date: "2026".to_string(),
        page_count: Some(100),
        audio_duration_minutes: None,
        language: "en".to_string(),
        cover_url: String::new(),
        preferred_format: BookFormat::Paperback,
        library_status: MediaLibraryStatus::Planned,
        notes: "Keep this note".to_string(),
        is_favorite: false,
        priority: 0,
        ownership_status: BookOwnershipStatus::NotOwned,
        is_read_next: false,
        series_name: String::new(),
        series_position: String::new(),
    }
}

#[test]
fn manual_books_work_without_provider_credentials_and_deduplicate_by_isbn() {
    let db = database();
    let repository = BookRepository::new(&db);
    let first = repository
        .create_manual(&manual_input("First", "9780306406157"))
        .expect("manual book should save");
    let duplicate = repository
        .create_manual(&manual_input("Duplicate", "9780306406157"))
        .expect("exact ISBN should return existing detail");
    assert_eq!(first, duplicate);
    let notes: String = db
        .connection
        .query_row("SELECT notes FROM obj_media_library_entry WHERE id=?1", [duplicate], |row| row.get(0))
        .expect("entry");
    assert_eq!(notes, "Keep this note");
}

#[test]
fn manual_book_creation_persists_optional_reader_and_edition_fields() {
    let db = database();
    let repository = BookRepository::new(&db);
    let mut input = manual_input("Configured manual book", "");
    input.audio_duration_minutes = Some(480);
    input.preferred_format = BookFormat::Audiobook;
    input.is_favorite = true;
    input.priority = 4;
    input.ownership_status = BookOwnershipStatus::Owned;
    input.is_read_next = true;
    input.series_name = "Local Series".to_string();
    input.series_position = "2".to_string();

    let entry_id = repository.create_manual(&input).expect("manual options should save");
    let (favorite, priority): (i64, i64) = db
        .connection
        .query_row(
            "SELECT is_favorite, priority FROM obj_media_library_entry WHERE id=?1",
            [entry_id],
            |row| Ok((row.get(0)?, row.get(1)?)),
        )
        .expect("entry");
    assert_eq!(favorite, 1);
    assert_eq!(priority, 4);
    let (ownership, format, queue): (String, String, Option<i64>) = db
        .connection
        .query_row(
            "SELECT ownership_status, preferred_format, reading_queue_position
             FROM obj_media_book_reader_state WHERE media_library_entry_id=?1",
            [entry_id],
            |row| Ok((row.get(0)?, row.get(1)?, row.get(2)?)),
        )
        .expect("reader state");
    assert_eq!(ownership, "OWNED");
    assert_eq!(format, "AUDIOBOOK");
    assert_eq!(queue, Some(1));
    let (minutes, language, manual_sources): (Option<i64>, String, i64) = db
        .connection
        .query_row(
            "SELECT edition.audio_duration_minutes, edition.language,
                (SELECT COUNT(*) FROM obj_media_book_source_record source
                 WHERE source.edition_id = edition.id AND source.source_key = 'manual')
             FROM obj_media_book_edition edition",
            [],
            |row| Ok((row.get(0)?, row.get(1)?, row.get(2)?)),
        )
        .expect("edition");
    assert_eq!(minutes, Some(480));
    assert_eq!(language, "en");
    assert!(manual_sources > 0);
    let (series, user_override): (String, i64) = db
        .connection
        .query_row(
            "SELECT series.name, member.is_user_override FROM obj_media_book_series_member member
             JOIN obj_media_book_series series ON series.id = member.series_id",
            [],
            |row| Ok((row.get(0)?, row.get(1)?)),
        )
        .expect("series");
    assert_eq!(series, "Local Series");
    assert_eq!(user_override, 1);
}

fn refusal(input: &CreateManualBookInput) -> overlay_forge::media::MediaError {
    match manual_book_import(input) {
        Err(e) => e,
        Ok(_) => panic!("the input should be refused"),
    }
}

#[test]
fn manual_book_problems_are_refused_in_order() {
    let mut input = manual_input("  ", "bad");
    let error = refusal(&input);
    assert_eq!(error.kind, MediaErrorKind::Validation);
    assert_eq!(error.message, "A book title is required.");
    input.title = "Title".to_string();
    input.page_count = Some(0);
    assert_eq!(refusal(&input).message, "Page count must be positive.");
    input.page_count = None;
    input.audio_duration_minutes = Some(-3);
    assert_eq!(refusal(&input).message, "Audiobook duration must be positive.");
    input.audio_duration_minutes = None;
    assert_eq!(refusal(&input).message, "ISBN-13 is invalid.");
    input.isbn_13 = "0306406152".to_string();
    assert_eq!(refusal(&input).message, "Expected an ISBN-13.");
    input.isbn_13 = " 978-0-306-40615-7 ".to_string();
    input.series_name = " Saga ".to_string();
    input.series_position = " 3 ".to_string();
    let import = manual_book_import(&input).expect("valid input");
    assert_eq!(import.title, "Title");
    assert_eq!(import.editions[0].isbn_13, "9780306406157");
    assert_eq!(import.series[0].name, "Saga");
    assert_eq!(import.series[0].position_text, "3");
    assert_eq!(import.series[0].source_key, "manual");
}

#[test]
fn series_overrides_and_progress_resets_are_stored() {
    let db = database();
    let repository = BookRepository::new(&db);
    let entry_id = repository.create_manual(&manual_input("Series book", "")).expect("book");
    let refused = repository
        .set_series_override(
            entry_id,
            &overlay_forge::book_manual::BookSeriesOverrideInput {
                name: "  ".to_string(),
                position_text: "1".to_string(),
                is_primary: true,
            },
        )
        .expect_err("blank name");
    assert_eq!(refused.message, "A series name is required.");
    repository
        .set_series_override(
            entry_id,
            &overlay_forge::book_manual::BookSeriesOverrideInput {
                name: " My Series ".to_string(),
                position_text: " 3 ".to_string(),
                is_primary: true,
            },
        )
        .expect("override");
    let (name, position, sort, primary, user): (String, String, f64, i64, i64) = db
        .connection
        .query_row(
            "SELECT series.name, member.position_text, member.position_sort, member.is_primary, member.is_user_override
             FROM obj_media_book_series_member member JOIN obj_media_book_series series ON series.id = member.series_id",
            [],
            |row| Ok((row.get(0)?, row.get(1)?, row.get(2)?, row.get(3)?, row.get(4)?)),
        )
        .expect("member");
    assert_eq!((name.as_str(), position.as_str(), sort, primary, user), ("My Series", "3", 3.0, 1, 1));
    db.connection
        .execute(
            "UPDATE obj_media_book_reader_state SET progress_value=40, current_chapter='Ch 2', last_progress_at='2026-01-01' WHERE media_library_entry_id=?1",
            [entry_id],
        )
        .expect("progress");
    db.connection
        .execute(
            "UPDATE obj_media_library_entry SET library_status='WATCHING', started_at='2026-01-01' WHERE id=?1",
            [entry_id],
        )
        .expect("status");
    repository.reset_progress(entry_id).expect("reset");
    let (value, chapter, status, started): (f64, String, String, String) = db
        .connection
        .query_row(
            "SELECT reader.progress_value, reader.current_chapter, entry.library_status, entry.started_at
             FROM obj_media_library_entry entry JOIN obj_media_book_reader_state reader
               ON reader.media_library_entry_id = entry.id WHERE entry.id=?1",
            [entry_id],
            |row| Ok((row.get(0)?, row.get(1)?, row.get(2)?, row.get(3)?)),
        )
        .expect("row");
    assert_eq!((value, chapter.as_str(), status.as_str(), started.as_str()), (0.0, "", "PLANNED", ""));
}

#[test]
fn scene_context_puts_the_header_and_sections_in_order() {
    let text = overlay_forge::gearblocks_scene_context::scene_context_text(&vec![
        "## Scene source".to_string(),
        "## Functional parts".to_string(),
    ]);
    assert!(text.starts_with("# GearBlocks Runtime Scene Context\n\nSource: normalized SQLite runtime scene rows."));
    assert!(text.ends_with("import.\n\n## Scene source\n\n## Functional parts"));
}
