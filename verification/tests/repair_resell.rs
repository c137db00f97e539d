use overlay_forge::repair_resell::{
    content_hash, estimate_confidence, extract_listing_candidates, listing_url_chars,
    manual_import_draft, price_number_chars, refresh_candidate_draft, refresh_fetches,
    scrape_run_finish, validate_estimate_label, watchlist_values, RefreshAttempt,
    RepairResellManualImportInput, RepairResellWatchlistInput, MAX_REFRESH_LISTINGS,
};

fn chars(s: &str) -> Vec<char> {
    s.chars().collect()
}

fn text(v: Vec<char>) -> String {
    v.into_iter().collect()
}

fn is_lower_hex(s: &str) -> bool {
    !s.is_empty() && s.chars().all(|c| c.is_ascii_digit() || ('a'..='f').contains(&c))
}

#[test]
fn listing_candidates_are_read_from_anchors() {
    let html = r#"<html><body>
        <a href="/lot/1">Lawn <b>Mower</b> &amp; bag $1,250.50</a>
        <a href='https://other.example/item/2'>Snow blower</a>
        <a href="/about">About us</a>
        <a href="/lot/1">Duplicate lot</a>
        <a href="/x">Bid</a>
        <a>no href listing</a>
        <a href="tools/3">Tool chest</a>
    </body></html>"#;
    let found = extract_listing_candidates("https://auctions.example/catalog/", html);
    assert_eq!(found.len(), 3);
    assert_eq!(found[0].url, "https://auctions.example/lot/1");
    assert_eq!(found[0].title, "Lawn Mower & bag $1,250.50");
    assert_eq!(found[0].price_text.as_deref(), Some("1,250.50"));
    assert_eq!(found[1].url, "https://other.example/item/2");
    assert_eq!(found[1].title, "Snow blower");
    assert_eq!(found[1].price_text, None);
    assert_eq!(found[2].url, "https://auctions.example/catalog/tools/3");
    assert_eq!(found[2].title, "Tool chest");
    for candidate in &found {
        assert!(is_lower_hex(&candidate.external_id));
    }
    assert_eq!(found[0].external_id, content_hash(&[found[0].url.as_str()]));
}

#[test]
fn listing_candidates_stop_at_the_cap() {
    let mut html = String::new();
    for i in 0..40 {
        html.push_str(&format!("<a href=\"/lot/{i}\">Auction lot {i}</a>"));
    }
    let found = extract_listing_candidates("https://a.example", &html);
    assert_eq!(found.len(), MAX_REFRESH_LISTINGS);
    assert_eq!(found[24].url, "https://a.example/lot/24");
}

#[test]
fn unclosed_anchors_end_or_are_skipped() {
    assert!(extract_listing_candidates("https://a.example", "<a href=\"/lot/1\"").is_empty());
    let found = extract_listing_candidates(
        "https://a.example",
        "<a href=\"/lot/1\">Auction lot one",
    );
    assert!(found.is_empty());
}

#[test]
fn links_are_resolved_against_the_page() {
    let base = chars("https://a.example/path/page/");
    assert_eq!(text(listing_url_chars(&base, &chars("http://b.example/x"))), "http://b.example/x");
    assert_eq!(text(listing_url_chars(&base, &chars("//cdn.example/x"))), "https://cdn.example/x");
    assert_eq!(text(listing_url_chars(&base, &chars("/lot/7"))), "https://a.example/lot/7");
    assert_eq!(text(listing_url_chars(&base, &chars("lot/7"))), "https://a.example/path/page/lot/7");
    let bare = chars("a.example//");
    assert_eq!(text(listing_url_chars(&bare, &chars("/lot"))), "a.example/lot");
}

#[test]
fn price_text_follows_the_first_dollar_sign() {
    assert_eq!(price_number_chars(&chars("Now $ 12.50 each")).map(text), Some("12.50".to_string()));
    assert_eq!(price_number_chars(&chars("$3,000 or best")).map(text), Some("3,000".to_string()));
    assert_eq!(price_number_chars(&chars("$")).map(text), Some(String::new()));
    assert_eq!(price_number_chars(&chars("free")), None);
}

fn manual_input(title: &str, url: &str) -> RepairResellManualImportInput {
    RepairResellManualImportInput {
        source_id: "src-1".to_string(),
        canonical_url: url.to_string(),
        title: title.to_string(),
        description_text: "  Runs well  ".to_string(),
        source_category_text: None,
        condition_text: Some("Used".to_string()),
        location_text: None,
        current_price_cents: Some(4500),
        closing_at: None,
        pickup_text: None,
        inspection_text: None,
    }
}

#[test]
fn manual_imports_need_a_title_and_an_address() {
    let err = manual_import_draft(manual_input("  ", "https://a.example")).err().unwrap();
    assert_eq!(err, "Listing title is required.");
    let err = manual_import_draft(manual_input("Mower", " ")).err().unwrap();
    assert_eq!(err, "Listing URL is required.");
    let draft = manual_import_draft(manual_input(" Mower ", " https://a.example/1 ")).ok().unwrap();
    assert_eq!(draft.title, "Mower");
    assert_eq!(draft.canonical_url, "https://a.example/1");
    assert_eq!(draft.description_text, "Runs well");
    assert_eq!(draft.condition_text, "Used");
    assert_eq!(draft.location_text, "");
    assert_eq!(draft.current_price_cents, Some(4500));
    assert_eq!(draft.listing_status, "unknown");
    assert_eq!(draft.structured_json, "{}");
    assert_eq!(
        draft.content_hash,
        content_hash(&[" https://a.example/1 ", " Mower ", "  Runs well  "])
    );
}

#[test]
fn refresh_drafts_describe_their_source() {
    let found = extract_listing_candidates("https://a.example", "<a href=\"/lot/9\">Generator 5kW</a>");
    let draft = refresh_candidate_draft("s1", "County Auctions", "Auction", "Ottawa", &found[0], Some(900));
    assert_eq!(draft.description_text, "Discovered from County Auctions manual refresh.");
    assert_eq!(draft.external_id.as_deref(), Some(found[0].external_id.as_str()));
    assert_eq!(draft.source_category_text, "Auction");
    assert_eq!(draft.location_text, "Ottawa");
    assert_eq!(draft.content_hash, content_hash(&["https://a.example/lot/9", "Generator 5kW"]));
}

#[test]
fn run_outcomes_and_defaults() {
    assert!(refresh_fetches(true, "public_http"));
    assert!(!refresh_fetches(false, "public_http"));
    assert!(!refresh_fetches(true, "manual"));
    let skipped = scrape_run_finish(RefreshAttempt::Skipped);
    assert_eq!((skipped.status.as_str(), skipped.counts), ("skipped", (0, 0, 0, 1)));
    assert_eq!(skipped.message, "Source is disabled or manual-import only.");
    let stored = scrape_run_finish(RefreshAttempt::Stored(7));
    assert_eq!((stored.status.as_str(), stored.counts, stored.message.as_str()), ("succeeded", (7, 0, 7, 0), ""));
    let failed = scrape_run_finish(RefreshAttempt::Failed("HTTP 500".to_string()));
    assert_eq!((failed.status.as_str(), failed.counts, failed.message.as_str()), ("failed", (0, 0, 0, 0), "HTTP 500"));
    let values = watchlist_values(RepairResellWatchlistInput {
        listing_id: "l1".to_string(),
        is_watchlisted: true,
        watch_status: None,
        notes: None,
    });
    assert_eq!(values, ("l1".to_string(), true, "watching".to_string(), String::new()));
    assert_eq!(validate_estimate_label("  ").unwrap_err(), "Estimate label is required.");
    assert!(validate_estimate_label("Quick flip").is_ok());
    assert_eq!(estimate_confidence(None), "low");
    assert_eq!(estimate_confidence(Some("high".to_string())), "high");
}
