use overlay_forge::media::{MediaContentType, MediaError, MediaErrorKind, NormalizedMediaSeason};
use overlay_forge::tmdb::{
    episode_import, import_request_type, media_import, movie_title, normalize_external_media_type,
    preferred_title_of, provider_region, provider_snapshot, search_query, search_results,
    season_import, series_title, sort_seasons, tmdb_status_error, TmdbEpisodeDetail,
    TmdbMovieDetail, TmdbRegionAvailability, TmdbSearchItem, TmdbSeasonDetail, TmdbSeasonSummary,
    TmdbSeriesDetail, TmdbWatchProvider,
};

fn s(v: &str) -> Option<String> {
    Some(v.to_string())
}

fn item(id: i64, media_type: Option<String>) -> TmdbSearchItem {
    TmdbSearchItem {
        id,
        media_type,
        title: None,
        original_title: None,
        name: None,
        original_name: None,
        overview: None,
        original_language: None,
        release_date: None,
        first_air_date: None,
        poster_path: None,
        backdrop_path: None,
    }
}

#[test]
fn search_keeps_movies_and_series() {
    let mut movie = item(603, s("movie"));
    movie.title = s("  ");
    movie.original_title = s(" The Matrix ");
    movie.release_date = s("1999-03-31");
    let mut series = item(1399, s("tv"));
    series.name = s("Game of Thrones");
    series.original_name = s("Game of Thrones");
    series.first_air_date = s("2011-04-17");
    let results = search_results(vec![movie, item(1, s("person")), series, item(2, None)]);
    assert_eq!(results.len(), 2);
    assert_eq!(results[0].title, "The Matrix");
    assert_eq!(results[0].original_title, " The Matrix ");
    assert_eq!(results[0].content_type, MediaContentType::Movie);
    assert_eq!(results[0].release_date, "1999-03-31");
    assert_eq!(results[1].external_media_type, "tv");
    assert_eq!(results[1].content_type, MediaContentType::Series);
    assert_eq!(results[1].release_date, "2011-04-17");
    assert!(!results[1].already_in_library);
}

#[test]
fn requests_are_checked() {
    assert_eq!(search_query("  a ").unwrap_err().message, "Enter at least two characters to search TMDB.");
    assert_eq!(search_query(" é ").unwrap(), "é");
    assert_eq!(normalize_external_media_type(" TV ").unwrap(), "tv");
    assert_eq!(normalize_external_media_type("book").unwrap_err().message, "TMDB media type must be movie or tv.");
    assert_eq!(import_request_type(0, "movie").unwrap_err().message, "TMDB title identifiers must be positive.");
    assert_eq!(import_request_type(5, "Movie").unwrap(), "movie");
    assert_eq!(preferred_title_of(" ", " Original "), "Original");
    assert_eq!(provider_region(" ca "), "CA");
}

#[test]
fn titles_and_seasons_are_normalized() {
    let movie = movie_title(
        TmdbMovieDetail {
            id: 603,
            title: "The Matrix".to_string(),
            original_title: " The Matrix ".to_string(),
            overview: s("A hacker"),
            original_language: s("en"),
            release_date: s("1999-03-31"),
            runtime: Some(136),
            status: s("Released"),
            poster_path: None,
            backdrop_path: None,
            homepage: None,
        },
        "{}".to_string(),
    );
    assert_eq!(movie.external_media_type.as_deref(), Some("movie"));
    assert_eq!(movie.original_title, "The Matrix");
    assert_eq!(movie.runtime_minutes, Some(136));
    let series = series_title(
        TmdbSeriesDetail {
            id: 1,
            name: String::new(),
            original_name: "Original".to_string(),
            overview: None,
            original_language: None,
            first_air_date: s("2020-01-01"),
            last_air_date: None,
            episode_run_time: vec![0, -3, 42, 50],
            status: None,
            series_type: s("Scripted"),
            poster_path: None,
            backdrop_path: None,
            homepage: None,
            number_of_seasons: Some(2),
            number_of_episodes: Some(20),
        },
        "{\"id\":1}".to_string(),
    );
    assert_eq!(series.title, "Original");
    assert_eq!(series.episode_runtime_minutes, Some(42));
    assert_eq!(series.content_type, MediaContentType::Series);
    assert_eq!(series.metadata_json, "{\"id\":1}");
    let episode = episode_import(
        TmdbEpisodeDetail {
            id: 9,
            season_number: 1,
            episode_number: 2,
            name: s("Two"),
            overview: None,
            air_date: None,
            runtime: Some(45),
            still_path: None,
        },
        "{}".to_string(),
    );
    let season = season_import(
        TmdbSeasonSummary {
            id: 3,
            season_number: 1,
            name: "Listed".to_string(),
            overview: "Listed overview".to_string(),
            air_date: s("2020-01-01"),
            poster_path: None,
        },
        TmdbSeasonDetail {
            id: 3,
            season_number: 1,
            name: None,
            overview: s("Own overview"),
            air_date: None,
            poster_path: s("/p.jpg"),
        },
        "{}".to_string(),
        vec![episode],
    );
    assert_eq!(season.name, "Listed");
    assert_eq!(season.overview, "Own overview");
    assert_eq!(season.air_date, "2020-01-01");
    assert_eq!(season.poster_path, "/p.jpg");
    assert_eq!(season.episode_count, 1);
    assert_eq!(season.episodes[0].name, "Two");
}

fn season(number: i64, name: &str) -> NormalizedMediaSeason {
    NormalizedMediaSeason {
        external_id: None,
        season_number: number,
        name: name.to_string(),
        overview: String::new(),
        air_date: String::new(),
        poster_path: String::new(),
        episode_count: 0,
        metadata_json: String::new(),
        episodes: Vec::new(),
    }
}

#[test]
fn seasons_are_sorted_stably_by_number() {
    let sorted = sort_seasons(vec![season(2, "b"), season(0, "s"), season(1, "a"), season(1, "a2"), season(0, "s2")]);
    let names: Vec<&str> = sorted.iter().map(|s| s.name.as_str()).collect();
    assert_eq!(names, vec!["s", "s2", "a", "a2", "b"]);
    assert!(sort_seasons(Vec::new()).is_empty());
}

fn provider(id: i64, name: &str, priority: Option<i64>) -> TmdbWatchProvider {
    TmdbWatchProvider { provider_id: id, provider_name: name.to_string(), logo_path: None, display_priority: priority }
}

#[test]
fn availability_lists_providers_by_monetization() {
    let snapshot = provider_snapshot(
        "CA".to_string(),
        Some(TmdbRegionAvailability {
            link: s("https://www.themoviedb.org/movie/603/watch"),
            flatrate: vec![provider(8, "Netflix", Some(1))],
            free: Vec::new(),
            ads: vec![provider(9, "Tubi", None)],
            rent: vec![provider(2, "Apple TV", Some(4))],
            buy: Vec::new(),
        }),
    );
    assert_eq!(snapshot.providers.len(), 3);
    assert_eq!(snapshot.providers[0].monetization_type, "FLATRATE");
    assert_eq!(snapshot.providers[1].monetization_type, "ADS");
    assert_eq!(snapshot.providers[1].display_priority, 0);
    assert_eq!(snapshot.providers[2].provider_name, "Apple TV");
    let empty = provider_snapshot("US".to_string(), None);
    assert!(empty.providers.is_empty() && empty.source_link_url.is_empty());
    let failed = media_import(
        movie_title(
            TmdbMovieDetail {
                id: 1,
                title: "x".to_string(),
                original_title: "x".to_string(),
                overview: None,
                original_language: None,
                release_date: None,
                runtime: None,
                status: None,
                poster_path: None,
                backdrop_path: None,
                homepage: None,
            },
            "{}".to_string(),
        ),
        Vec::new(),
        Err(MediaError::new(MediaErrorKind::Network, "temporary provider error".to_string())),
    );
    assert_eq!(failed.provider_error.as_deref(), Some("Network: temporary provider error"));
    assert!(failed.provider_snapshot.is_none());
}

#[test]
fn failed_responses_are_reported_by_status() {
    assert_eq!(tmdb_status_error(401, "401 Unauthorized").kind, MediaErrorKind::Unauthorized);
    assert_eq!(tmdb_status_error(404, "404 Not Found").message, "TMDB could not find that title.");
    assert_eq!(tmdb_status_error(429, "").kind, MediaErrorKind::RateLimited);
    assert_eq!(tmdb_status_error(503, "").kind, MediaErrorKind::ProviderUnavailable);
    let other = tmdb_status_error(418, "418 I'm a teapot");
    assert_eq!(other.kind, MediaErrorKind::Unknown);
    assert_eq!(other.message, "TMDB returned HTTP status 418 I'm a teapot.");
}
