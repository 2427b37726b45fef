use mb_library::models::album::{copy_tracks, Album, TrackInfo};
use mb_library::models::artist::Artist;
use mb_library::models::library::{AlbumRecord, CoverArtStatus, NoteStatus};

fn track(title: &str, length_ms: i64) -> TrackInfo {
    TrackInfo { position: String::new(), title: title.to_string(), length_ms }
}

fn sample_album() -> Album {
    Album {
        id: "group-1".to_string(),
        release_id: "release-9".to_string(),
        title: "Discovery".to_string(),
        artist: "Daft Punk".to_string(),
        primary_type: "Album".to_string(),
        secondary_types: vec!["Live".to_string(), "Remix".to_string()],
        status: "Official".to_string(),
        first_release_date: "2001-03-12".to_string(),
        disambiguation: "".to_string(),
        label: "Virgin".to_string(),
        country: "FR".to_string(),
        tracklist: vec![track("One More Time", 320_357), track("Aerodynamic", 0)],
    }
}

#[test]
fn artist_without_disambiguation_shows_the_bare_name() {
    let mut artist = Artist::default();
    artist.name = "Air".to_string();
    assert_eq!(artist.display_name(), "Air");
}

#[test]
fn artist_with_disambiguation_shows_it_in_brackets() {
    let artist = Artist {
        id: "x".to_string(),
        name: "Air".to_string(),
        disambiguation: "French band".to_string(),
        score: 100,
    };
    assert_eq!(artist.display_name(), "Air (French band)");
    assert_eq!(artist.clone(), artist);
}

#[test]
fn cover_art_is_asked_by_release_id_where_known() {
    let album = sample_album();
    assert_eq!(album.cover_art_url(), "https://coverartarchive.org/release/release-9/front");
}

#[test]
fn cover_art_is_asked_by_group_id_otherwise() {
    let mut album = sample_album();
    album.release_id = String::new();
    assert_eq!(album.cover_art_url(), "https://coverartarchive.org/release/group-1/front");
}

#[test]
fn secondary_types_are_listed_or_none() {
    let mut album = sample_album();
    assert_eq!(album.secondary_types_label(), "Live, Remix");
    album.secondary_types.clear();
    assert_eq!(album.secondary_types_label(), "None");
    let mut record = AlbumRecord::from_album_at(&sample_album(), "t");
    assert_eq!(record.secondary_types_label(), "Live, Remix");
    record.secondary_types = vec!["Soundtrack".to_string()];
    assert_eq!(record.secondary_types_label(), "Soundtrack");
    record.secondary_types.clear();
    assert_eq!(record.secondary_types_label(), "None");
}

#[test]
fn default_album_and_track_are_empty() {
    let album = Album::default();
    assert_eq!(album.id, "");
    assert_eq!(album.title, "");
    assert!(album.secondary_types.is_empty());
    assert!(album.tracklist.is_empty());
    assert_eq!(TrackInfo::default(), track("", 0));
    assert_eq!(CoverArtStatus::default(), CoverArtStatus::Pending);
    assert_eq!(NoteStatus::default(), NoteStatus::NotGenerated);
}

#[test]
fn album_copy_holds_the_same_values() {
    let album = sample_album();
    assert_eq!(album.clone(), album);
    assert_eq!(copy_tracks(&album.tracklist), album.tracklist);
}

#[test]
fn record_of_an_album_starts_pending_without_paths() {
    let record = AlbumRecord::from_album_at(&sample_album(), "2024-01-02T03:04:05+00:00");
    assert_eq!(record.mbid, "group-1");
    assert_eq!(record.title, "Discovery");
    assert_eq!(record.artist, "Daft Punk");
    assert_eq!(record.primary_type, "Album");
    assert_eq!(record.secondary_types, vec!["Live".to_string(), "Remix".to_string()]);
    assert_eq!(record.status, "Official");
    assert_eq!(record.release_date, "2001-03-12");
    assert_eq!(record.label, "Virgin");
    assert_eq!(record.country, "FR");
    assert_eq!(record.cover_art_url, "https://coverartarchive.org/release/release-9/front");
    assert_eq!(record.cover_art_path, None);
    assert_eq!(record.note_path, None);
    assert_eq!(record.tracklist.len(), 2);
    assert_eq!(record.cover_art_status, CoverArtStatus::Pending);
    assert_eq!(record.note_status, NoteStatus::NotGenerated);
    assert_eq!(record.created_at_utc, "2024-01-02T03:04:05+00:00");
    assert_eq!(record.updated_at_utc, "2024-01-02T03:04:05+00:00");
}

#[test]
fn record_stamped_by_the_clock_carries_one_reading() {
    let record = AlbumRecord::from_album(&sample_album());
    assert!(!record.created_at_utc.is_empty());
    assert_eq!(record.created_at_utc, record.updated_at_utc);
    assert_eq!(record.mbid, "group-1");
    let blank = AlbumRecord::default();
    assert_eq!(blank.created_at_utc, blank.updated_at_utc);
    assert_eq!(blank.mbid, "");
    assert_eq!(blank.cover_art_status, CoverArtStatus::Pending);
}

#[test]
fn touch_changes_the_time_of_the_last_change_only() {
    let before = AlbumRecord::from_album_at(&sample_album(), "then");
    let mut after = before.clone();
    after.touch_at("now");
    assert_eq!(after.updated_at_utc, "now");
    assert_eq!(after.created_at_utc, "then");
    after.updated_at_utc = "then".to_string();
    assert_eq!(after, before);
    let mut clocked = before.clone();
    clocked.touch();
    assert_ne!(clocked.updated_at_utc, "then");
    clocked.updated_at_utc = "then".to_string();
    assert_eq!(clocked, before);
}

#[test]
fn file_names_are_made_from_id_artist_and_title() {
    let record = AlbumRecord::from_album_at(&sample_album(), "t");
    assert_eq!(record.cover_art_filename(), "group-1.jpg");
    assert_eq!(record.note_filename(), "Daft Punk - Discovery.md");
}

#[test]
fn track_listing_numbers_from_one_and_shows_known_lengths() {
    let mut record = AlbumRecord::empty_at("t");
    record.tracklist = vec![
        track("One More Time", 320_357),
        track("Aerodynamic", 0),
        track("Short", 999),
        track("Exactly a minute", 60_000),
        track("Negative", -5),
        track("Very long", 6_000_000 + 59_999),
    ];
    assert_eq!(
        record.as_track_listing_lines(),
        vec![
            "1. One More Time (05:20)".to_string(),
            "2. Aerodynamic".to_string(),
            "3. Short (00:00)".to_string(),
            "4. Exactly a minute (01:00)".to_string(),
            "5. Negative".to_string(),
            "6. Very long (100:59)".to_string(),
        ]
    );
}

#[test]
fn track_listing_of_no_tracks_is_empty() {
    assert!(AlbumRecord::empty_at("t").as_track_listing_lines().is_empty());
}

#[test]
fn track_numbers_beyond_nine_take_two_digits() {
    let mut record = AlbumRecord::empty_at("t");
    record.tracklist = (0..12).map(|_| track("x", 0)).collect();
    let lines = record.as_track_listing_lines();
    assert_eq!(lines[8], "9. x");
    assert_eq!(lines[9], "10. x");
    assert_eq!(lines[11], "12. x");
}
