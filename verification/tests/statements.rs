use overlay_forge::book_service::{identity_lookup_statement, isbn_lookup_statement, FIND_BY_ISBN_SQL};
use overlay_forge::book_store::{
    delete_provider_links_statement, find_edition_statement, source_key_seen_earlier,
    update_edition_statement, DELETE_PROVIDER_LINKS_SQL, UPDATE_EDITION_SQL,
};
use overlay_forge::books::{BookFormat, NormalizedBookEdition, NormalizedBookSource};
use overlay_forge::database::SqlParam;
use overlay_forge::media::{MediaStreamingLinkInput, UpdateMediaSettingsInput};
use overlay_forge::media_progress::{
    episode_progress_statement, movie_status_statement, series_status_statement, settings_statement,
    MOVIE_UNWATCHED_SQL, MOVIE_WATCHED_SQL, SAVE_SETTINGS_SQL,
};
use overlay_forge::media::MediaLibraryStatus;
use overlay_forge::media_import::{snapshot_failure_statement, SNAPSHOT_FAILED_SQL};
use overlay_forge::media_repository::{link_statement, tag_statement, FIND_TAG_SQL, INSERT_LINK_SQL};
use overlay_forge::statements::{renumber_statements, swap_statements, SqlStatement};

#[derive(Debug, PartialEq)]
enum Arg {
    Int(i64),
    Text(String),
    Null,
}

fn args(statement: &SqlStatement) -> Vec<Arg> {
    statement
        .params
        .iter()
        .map(|p| match p {
            SqlParam::Integer(i) => Arg::Int(*i),
            SqlParam::Text(t) => Arg::Text(t.clone()),
            SqlParam::Null => Arg::Null,
        })
        .collect()
}

fn text(s: &str) -> Arg {
    Arg::Text(s.to_string())
}

#[test]
fn renumbering_gives_dense_positions_in_the_order_read() {
    let statements = renumber_statements("UPDATE q SET pos = ?2 WHERE id = ?1", &vec![40, 7, 12]);
    let all: Vec<Vec<Arg>> = statements.iter().map(args).collect();
    assert_eq!(
        all,
        vec![
            vec![Arg::Int(40), Arg::Int(1)],
            vec![Arg::Int(7), Arg::Int(2)],
            vec![Arg::Int(12), Arg::Int(3)],
        ]
    );
    assert!(statements.iter().all(|s| s.sql == "UPDATE q SET pos = ?2 WHERE id = ?1"));
}

#[test]
fn a_swap_parks_the_row_and_exchanges_positions() {
    let statements = swap_statements("park", "position", "move", 5, 9, 3, 2);
    let all: Vec<(&str, Vec<Arg>)> = statements.iter().map(|s| (s.sql, args(s))).collect();
    assert_eq!(
        all,
        vec![
            ("park", vec![Arg::Int(5)]),
            ("position", vec![Arg::Int(9), Arg::Int(3)]),
            ("move", vec![Arg::Int(5), Arg::Int(2)]),
        ]
    );
}

#[test]
fn saved_values_are_trimmed_and_upper_cased() {
    let tag = tag_statement(FIND_TAG_SQL, "  Anime ");
    assert_eq!(args(&tag), vec![text("Anime")]);

    let link = link_statement(
        INSERT_LINK_SQL,
        4,
        &MediaStreamingLinkInput {
            provider_name: " Stream ".to_string(),
            url: " https://example.com/watch ".to_string(),
            link_type: " rent ".to_string(),
            is_preferred: true,
            notes: " note ".to_string(),
        },
    );
    assert_eq!(
        args(&link),
        vec![Arg::Int(4), text("Stream"), text("https://example.com/watch"), text("RENT"), Arg::Int(1), text("note")]
    );

    let settings = settings_statement(&UpdateMediaSettingsInput {
        region_code: " ca ".to_string(),
        metadata_language: " en-CA ".to_string(),
        include_specials_in_completion: false,
    });
    assert_eq!(settings.sql, SAVE_SETTINGS_SQL);
    assert_eq!(args(&settings), vec![text("CA"), text("en-CA"), Arg::Int(0)]);
}

#[test]
fn book_lookups_use_the_identity_then_normalised_isbns() {
    assert_eq!(args(&identity_lookup_statement("google_books", "vol-1")), vec![text("google_books"), text("vol-1")]);
    let by_isbn = isbn_lookup_statement("0-306-40615-2", "978-0-306-40615-7");
    assert_eq!(by_isbn.sql, FIND_BY_ISBN_SQL);
    assert_eq!(args(&by_isbn), vec![text("9780306406157"), text("0306406152")]);
    assert_eq!(args(&isbn_lookup_statement("bad", "")), vec![text(""), text("")]);
}

#[test]
fn series_members_take_their_sort_value_from_the_position_text() {
    use_series();
}

fn use_series() {
    let with_position = overlay_forge::book_store::series_member_statement(
        3,
        8,
        0,
        &overlay_forge::book_import::NormalizedBookSeries {
            name: "Saga".to_string(),
            position_text: "2.5".to_string(),
            source_key: "hardcover".to_string(),
        },
    );
    assert_eq!(
        args(&with_position),
        vec![Arg::Int(3), Arg::Int(8), text("2.5"), text("2.5"), Arg::Int(1), text("hardcover"), Arg::Int(0)]
    );
    let manual = overlay_forge::book_store::series_member_statement(
        3,
        8,
        1,
        &overlay_forge::book_import::NormalizedBookSeries {
            name: "Saga".to_string(),
            position_text: String::new(),
            source_key: "manual".to_string(),
        },
    );
    assert_eq!(
        args(&manual),
        vec![Arg::Int(3), Arg::Int(8), text(""), Arg::Null, Arg::Int(0), text("manual"), Arg::Int(1)]
    );
    let failed = overlay_forge::book_store::insert_failed_statement(
        17,
        &overlay_forge::books::BookProviderFailure {
            source_key: "open_library".to_string(),
            message: "down".to_string(),
        },
    );
    assert_eq!(
        args(&failed),
        vec![Arg::Int(17), text("open_library"), text("status-17-open_library"), text("down")]
    );
}

fn stored_edition() -> NormalizedBookEdition {
    NormalizedBookEdition {
        title: "Dune".to_string(),
        subtitle: String::new(),
        format: BookFormat::Audiobook,
        isbn_10: "0441013597".to_string(),
        isbn_13: String::new(),
        publisher: "Ace".to_string(),
        published_date: "2005".to_string(),
        language: "en".to_string(),
        page_count: None,
        audio_duration_minutes: Some(1260),
        cover_url: String::new(),
        is_ebook: true,
        access_viewability: "PARTIAL".to_string(),
    }
}

#[test]
fn edition_refresh_statements_bind_the_imported_edition() {
    let e = stored_edition();
    let find = find_edition_statement(4, &e);
    assert_eq!(
        args(&find),
        vec![Arg::Int(4), text(""), text("0441013597"), text("Dune"), text("Ace"), text("2005"), text("AUDIOBOOK")]
    );
    let update = update_edition_statement(11, &e);
    assert_eq!(update.sql, UPDATE_EDITION_SQL);
    assert_eq!(
        args(&update),
        vec![
            Arg::Int(11),
            text("Dune"),
            text(""),
            text("AUDIOBOOK"),
            text("0441013597"),
            text(""),
            text("Ace"),
            text("2005"),
            text("en"),
            Arg::Null,
            Arg::Int(1260),
            text(""),
            Arg::Int(1),
            text("PARTIAL"),
        ]
    );
}

fn source(key: &str) -> NormalizedBookSource {
    NormalizedBookSource {
        edition_index: None,
        source_key: key.to_string(),
        entity_type: "WORK".to_string(),
        external_id: "x".to_string(),
        source_url: String::new(),
        metadata_json: "{}".to_string(),
    }
}

#[test]
fn provider_links_are_dropped_once_per_source_key() {
    let sources = vec![source("google_books"), source("open_library"), source("google_books")];
    assert!(!source_key_seen_earlier(&sources, 0));
    assert!(!source_key_seen_earlier(&sources, 1));
    assert!(source_key_seen_earlier(&sources, 2));
    let statement = delete_provider_links_statement(8, "open_library");
    assert_eq!(statement.sql, DELETE_PROVIDER_LINKS_SQL);
    assert_eq!(args(&statement), vec![Arg::Int(8), text("open_library")]);
}

#[test]
fn watched_state_statements_bind_trimmed_times_and_status_labels() {
    let episode = episode_progress_statement(31, true, "  2026-03-01 20:00:00 ");
    assert_eq!(args(&episode), vec![Arg::Int(31), Arg::Int(1), text("2026-03-01 20:00:00")]);
    let watched = movie_status_statement(5, MediaLibraryStatus::Completed, true, " ");
    assert_eq!(watched.sql, MOVIE_WATCHED_SQL);
    assert_eq!(args(&watched), vec![Arg::Int(5), text("COMPLETED"), text("")]);
    let unwatched = movie_status_statement(5, MediaLibraryStatus::Planned, false, "2026-01-01");
    assert_eq!(unwatched.sql, MOVIE_UNWATCHED_SQL);
    assert_eq!(args(&unwatched), vec![Arg::Int(5), text("PLANNED")]);
    let series = series_status_statement(9, MediaLibraryStatus::Watching, "2026-02-02".to_string(), true);
    assert_eq!(args(&series), vec![Arg::Int(9), text("WATCHING"), text("2026-02-02"), Arg::Int(1)]);
    let failed = snapshot_failure_statement(3, "CA".to_string(), "timeout");
    assert_eq!(failed.sql, SNAPSHOT_FAILED_SQL);
    assert_eq!(args(&failed), vec![Arg::Int(3), text("CA"), text("timeout")]);
}
