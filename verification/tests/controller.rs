use mb_library::api::musicbrainz::MusicBrainzError;
use mb_library::library::LibraryStore;
use mb_library::messages::AppMessage;
use mb_library::models::album::Album;
use mb_library::models::artist::Artist;
use mb_library::models::library::{AlbumRecord, CoverArtStatus, NoteStatus};
use mb_library::tui::controller::{
    add_albums, after_release_failure, album_listing_message, artist_search_message,
    check_release_id, fetching_line, fetching_metadata_line, merge_fetched_album,
    metadata_arrived, not_found_line, notes_message, refresh_message, should_search, IdCheck,
    ReleaseFallback, StoreReport,
};

fn album(id: &str, title: &str, artist: &str) -> Album {
    let mut a = Album::default();
    a.id = id.to_string();
    a.title = title.to_string();
    a.artist = artist.to_string();
    a
}

fn artist(name: &str, disambiguation: &str) -> Artist {
    Artist { id: "a".to_string(), name: name.to_string(), disambiguation: disambiguation.to_string(), score: 1 }
}

#[test]
fn blank_query_is_not_searched() {
    assert!(!should_search(""));
    assert!(!should_search("   \t\n"));
    assert!(should_search(" x "));
}

#[test]
fn search_report_tells_results_from_failures() {
    let found = vec![artist("Air", "")];
    assert_eq!(artist_search_message("air", Ok(found.clone())), AppMessage::ArtistResults(found));
    assert_eq!(
        artist_search_message("air", Err(MusicBrainzError::Empty)),
        AppMessage::SearchFailed("No artists found for 'air'".to_string())
    );
    assert_eq!(
        artist_search_message("air", Err(MusicBrainzError::Status(503))),
        AppMessage::SearchFailed("Artist search failed: unexpected status: 503".to_string())
    );
    assert_eq!(
        artist_search_message("air", Err(MusicBrainzError::Network("down".to_string()))),
        AppMessage::SearchFailed("Artist search failed: network error: down".to_string())
    );
}

#[test]
fn listing_report_fills_in_the_artist() {
    let who = artist("Air", "French band");
    let albums = vec![album("1", "Moon Safari", ""), album("2", "Split", "Air & Friends")];
    match album_listing_message(&who, Ok(albums)) {
        AppMessage::AlbumsLoaded(list) => {
            assert_eq!(list[0].artist, "Air (French band)");
            assert_eq!(list[0].title, "Moon Safari");
            assert_eq!(list[1].artist, "Air & Friends");
        }
        other => panic!("unexpected message {other:?}"),
    }
    assert_eq!(
        album_listing_message(&who, Err(MusicBrainzError::Empty)),
        AppMessage::SearchFailed("No albums found for Air (French band)".to_string())
    );
    assert_eq!(
        album_listing_message(&who, Err(MusicBrainzError::Parse("eof".to_string()))),
        AppMessage::SearchFailed("Album fetch failed: failed to parse response: eof".to_string())
    );
}

#[test]
fn adding_writes_new_albums_only() {
    let mut store = LibraryStore::new();
    store.upsert_album_at(AlbumRecord::from_album_at(&album("old", "Old", "X"), "t0"), "t0");
    let fresh = add_albums(
        &mut store,
        &vec![album("a", "A", ""), album("old", "Changed", "X"), album("b", "B", ""), album("a", "A again", "")],
        "t1",
    );
    let ids: Vec<&str> = fresh.iter().map(|r| r.mbid.as_str()).collect();
    assert_eq!(ids, vec!["a", "b"]);
    assert_eq!(store.len(), 3);
    assert_eq!(store.get_album("old").unwrap().title, "Old");
    assert_eq!(store.get_album("a").unwrap().title, "A");
    assert_eq!(store.get_album("a").unwrap().cover_art_status, CoverArtStatus::Pending);
    assert_eq!(store.get_album("a").unwrap().created_at_utc, "t1");
    assert_eq!(fresh[0], store.get_album("a").unwrap());
    assert!(add_albums(&mut store, &Vec::new(), "t2").is_empty());
    assert_eq!(store.len(), 3);
}

#[test]
fn refresh_shows_the_store_in_order() {
    let mut store = LibraryStore::new();
    add_albums(&mut store, &vec![album("1", "b", ""), album("2", "A", "")], "t");
    match refresh_message(&store) {
        AppMessage::LibraryRefreshed(records) => {
            let titles: Vec<&str> = records.iter().map(|r| r.title.as_str()).collect();
            assert_eq!(titles, vec!["A", "b"]);
        }
        other => panic!("unexpected message {other:?}"),
    }
}

#[test]
fn metadata_that_came_queues_the_cover_art() {
    let mut store = LibraryStore::new();
    add_albums(&mut store, &vec![album("g", "Homework", "")], "t0");
    assert_eq!(fetching_metadata_line("Homework"), "Fetching metadata for Homework...");
    let mut full = album("g", "Homework", "Daft Punk");
    full.release_id = "r".to_string();
    let report = metadata_arrived(&mut store, "Homework", Ok(full), "t1");
    assert_eq!(report.log, "Metadata fetched for Daft Punk - Homework");
    let job = report.job.unwrap();
    assert_eq!(job.cover_art_status, CoverArtStatus::Queued);
    assert_eq!(job.cover_art_url, "https://coverartarchive.org/release/r/front");
    assert_eq!(store.get_album("g").unwrap(), job);
    assert_eq!(store.len(), 1);
}

#[test]
fn metadata_that_failed_is_a_line_for_the_log() {
    let mut store = LibraryStore::new();
    add_albums(&mut store, &vec![album("g", "Homework", "")], "t0");
    let report = metadata_arrived(&mut store, "Homework", Err(MusicBrainzError::Empty), "t1");
    assert_eq!(
        report,
        StoreReport { log: "Failed to fetch metadata for Homework: no results returned".to_string(), job: None }
    );
    assert_eq!(store.get_album("g").unwrap().cover_art_status, CoverArtStatus::Pending);
    assert_eq!(store.get_album("g").unwrap().updated_at_utc, "t0");
}

#[test]
fn typed_ids_are_checked() {
    assert_eq!(check_release_id(""), IdCheck::Nothing);
    assert_eq!(check_release_id("  \t "), IdCheck::Nothing);
    assert_eq!(
        check_release_id("  0a1b2c3d-1111-2222-3333-444455556666 \n"),
        IdCheck::Valid("0a1b2c3d-1111-2222-3333-444455556666".to_string())
    );
    assert_eq!(
        check_release_id("abc"),
        IdCheck::Invalid(
            "Invalid ID format: abc (expected UUID format like 'xxxxxxxx-xxxx-xxxx-xxxx-xxxxxxxxxxxx')".to_string()
        )
    );
    // 36 bytes with three hyphens, and with five
    assert!(matches!(check_release_id("0a1b2c3d-1111-2222-3333x444455556666"), IdCheck::Invalid(_)));
    assert!(matches!(check_release_id("0a1b2c3d-1111-2222-3333-44445555-666"), IdCheck::Invalid(_)));
    // 37 bytes
    assert!(matches!(check_release_id("0a1b2c3d-1111-2222-3333-4444555566667"), IdCheck::Invalid(_)));
    // the form is all that is asked for
    assert!(matches!(check_release_id("----zzzzzzzzzzzzzzzzzzzzzzzzzzzzzzzz"), IdCheck::Valid(_)));
}

#[test]
fn failed_release_fetch_falls_back_by_status() {
    assert_eq!(
        after_release_failure(&MusicBrainzError::Status(404)),
        ReleaseFallback::TryReleaseGroup("Not a release ID, trying as release-group ID...".to_string())
    );
    assert_eq!(
        after_release_failure(&MusicBrainzError::Status(503)),
        ReleaseFallback::Report(
            "MusicBrainz service unavailable (rate limited). Wait a moment and try again.".to_string()
        )
    );
    assert_eq!(
        after_release_failure(&MusicBrainzError::Status(500)),
        ReleaseFallback::Report("Failed to fetch: unexpected status: 500".to_string())
    );
    // a reason that names a status is no status
    assert_eq!(
        after_release_failure(&MusicBrainzError::Network("error 404".to_string())),
        ReleaseFallback::Report("Failed to fetch: network error: error 404".to_string())
    );
    assert_eq!(
        after_release_failure(&MusicBrainzError::Empty),
        ReleaseFallback::Report("Failed to fetch: no results returned".to_string())
    );
    assert_eq!(fetching_line("abc"), "Fetching abc...");
    assert_eq!(not_found_line("abc"), "ID not found as release or release-group: abc (check the ID is correct)");
}

#[test]
fn fetched_album_that_is_new_is_added_and_queued() {
    let mut store = LibraryStore::new();
    let report = merge_fetched_album(&mut store, &album("g", "Homework", "Daft Punk"), "t1");
    assert_eq!(report.log, "Added to library: Daft Punk - Homework");
    let job = report.job.unwrap();
    assert_eq!(job.cover_art_status, CoverArtStatus::Queued);
    assert_eq!(store.get_album("g").unwrap(), job);
}

#[test]
fn fetched_album_keeps_complete_cover_art_and_note() {
    let mut store = LibraryStore::new();
    let mut old = AlbumRecord::from_album_at(&album("g", "Old title", "Daft Punk"), "t0");
    old.cover_art_status = CoverArtStatus::Completed;
    old.cover_art_path = Some("data/album_art/g.jpg".to_string());
    old.note_status = NoteStatus::Generated;
    old.note_path = Some("data/notes/n.md".to_string());
    store.upsert_album_at(old, "t0");
    let report = merge_fetched_album(&mut store, &album("g", "Homework", "Daft Punk"), "t1");
    assert_eq!(report.log, "Updated album in library: Daft Punk - Homework");
    assert_eq!(report.job, None);
    let held = store.get_album("g").unwrap();
    assert_eq!(held.title, "Homework");
    assert_eq!(held.cover_art_status, CoverArtStatus::Completed);
    assert_eq!(held.cover_art_path, Some("data/album_art/g.jpg".to_string()));
    assert_eq!(held.note_status, NoteStatus::Generated);
    assert_eq!(held.note_path, Some("data/notes/n.md".to_string()));
    assert_eq!(held.updated_at_utc, "t1");
    assert_eq!(store.len(), 1);
}

#[test]
fn fetched_album_without_complete_cover_art_is_queued_again() {
    for status in [CoverArtStatus::Pending, CoverArtStatus::Queued, CoverArtStatus::Downloading, CoverArtStatus::Unavailable] {
        let mut store = LibraryStore::new();
        let mut old = AlbumRecord::from_album_at(&album("g", "Old", "X"), "t0");
        old.cover_art_status = status;
        old.cover_art_path = Some("stale.jpg".to_string());
        old.note_path = Some("n.md".to_string());
        store.upsert_album_at(old, "t0");
        let report = merge_fetched_album(&mut store, &album("g", "New", "X"), "t1");
        let job = report.job.unwrap();
        assert_eq!(job.cover_art_status, CoverArtStatus::Queued);
        assert_eq!(job.cover_art_path, None);
        assert_eq!(job.note_path, Some("n.md".to_string()));
        assert_eq!(store.get_album("g").unwrap(), job);
    }
}

#[test]
fn note_writer_report_is_lines_or_a_failure() {
    assert_eq!(
        notes_message(Ok(vec!["Generated note: x".to_string()])),
        AppMessage::NotesGenerated(vec!["Generated note: x".to_string()])
    );
    assert_eq!(
        notes_message(Err("no template".to_string())),
        AppMessage::DownloadLog("Note generation failed: no template".to_string())
    );
}
