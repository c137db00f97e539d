# overlay_forge

The domain logic of the Overlay Forge desktop launcher and its media, book,
gaming and retirement tools, written in Verus: every function in `src/`
carries a contract that Verus checks.

## Layout

- `src/` — the verified library.
  - Launcher: `products` (which product starts, window behaviour),
    `host_store` (the launcher's own small database), `lifecycle`, `hotkeys`.
  - Media library: `media` (types and labels), `media_query` (the list
    query), `media_summary` (list rows, summaries and entry detail),
    `media_repository`, `media_progress`, `media_import`, `media_schema`,
    `media_service`, `tmdb` (provider payloads).
  - Book library: `books`, `book_import`, `merge`, `provider_imports`,
    `open_library_import`, `book_providers`, `book_requests`, `book_search`,
    `book_store` (adding and refreshing imports), `book_manual`, `book_list`,
    `book_detail`, `book_library`, `book_progress`, `book_service`.
  - Storage: `database` (the SQLite calls, behind trusted wrappers) and
    `statements` (statement builders, the statement log that the storing
    helpers keep, and queue renumbering).
  - GearBlocks: `gearblocks_api`, `gearblocks_api_scraper`,
    `gearblocks_scene_context`, `gearblocks_scene_groups`.
  - Other tools: `github`, `openai`, `json`, `markup`, `repair_resell`,
    `retirement_secure`, `text`.
- `tests/` — tests of the library, run against the real outside crates.
- `app/` — the desktop host around the library: windows, commands, file
  and network access, the keyring.

## What the contracts say about the database

A statement's result depends on what is on disk, so the wrappers in
`database` promise nothing of their results. The library states instead
what it hands to SQLite: each statement is built by a function whose
contract gives its SQL text and parameters. The helpers that store a book
record each statement they run in a ghost log. Their contracts give that
log exactly, as a function of the input and of what the database answered
(`new_book_plan`, `refresh_plan`, `manual_book_plan`, and the queue
renumbering after a removal).
