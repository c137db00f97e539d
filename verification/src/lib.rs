//! Domain logic of the Overlay Forge desktop launcher and its media, gaming and
//! retirement tools, with contracts checked by Verus.

pub mod text;
pub mod media;
pub mod books;
pub mod merge;
pub mod products;
pub mod markup;
pub mod gearblocks_api_scraper;
pub mod hotkeys;
pub mod github;
pub mod retirement_secure;
pub mod database;
pub mod media_repository;
pub mod media_service;
pub mod book_service;
pub mod gearblocks_scene_context;
pub mod repair_resell;
pub mod media_query;
pub mod book_providers;
pub mod openai;
pub mod gearblocks_api;
pub mod tmdb;
pub mod media_progress;
pub mod book_library;
pub mod gearblocks_scene_groups;
pub mod media_import;
pub mod media_schema;
pub mod book_search;
pub mod book_requests;
pub mod book_import;
pub mod open_library_import;
pub mod book_progress;
pub mod lifecycle;
pub mod json;
pub mod provider_imports;
pub mod book_store;
pub mod media_summary;
pub mod statements;
pub mod host_store;
pub mod book_list;
pub mod book_manual;
pub mod book_detail;
