use mb_library::config::default_note_template;
use mb_library::models::album::TrackInfo;
use mb_library::models::library::AlbumRecord;
use mb_library::notes::{
    check_metadata, note_path, note_path_for, plan_note, plan_note_with, render_template,
    NoteStep,
};

fn record(artist: &str, title: &str) -> AlbumRecord {
    let mut r = AlbumRecord::empty_at("t");
    r.mbid = "mbid-1".to_string();
    r.artist = artist.to_string();
    r.title = title.to_string();
    r.release_date = "1980-07-25".to_string();
    r.primary_type = "Album".to_string();
    r
}

fn track(title: &str, length_ms: i64) -> TrackInfo {
    TrackInfo { position: String::new(), title: title.to_string(), length_ms }
}

#[test]
fn template_placeholders_are_replaced() {
    let mut album = record("AC/DC", "Back in Black");
    album.secondary_types = vec!["Live".to_string(), "Remix".to_string()];
    album.tracklist = vec![track("Hells Bells", 312_000), track("Shoot to Thrill", 0)];
    let template = "{title}|{artist}|{release_date}|{musicbrainz_id}|{primary_type}|{secondary_types}|{cover_art_relative_path}|{track_listing}|{title}";
    assert_eq!(
        render_template(template, &album, "../album_art/x.jpg".to_string()),
        "Back in Black|AC/DC|1980-07-25|mbid-1|Album|Live, Remix|../album_art/x.jpg|1. Hells Bells (05:12)\n2. Shoot to Thrill|Back in Black"
    );
}

#[test]
fn template_without_tracks_says_so() {
    let album = record("A", "B");
    assert_eq!(render_template("[{track_listing}] {secondary_types}", &album, String::new()), "[- Track details unavailable] None");
}

#[test]
fn placeholders_are_replaced_one_after_the_other() {
    // a title that holds a later placeholder is itself filled in
    let album = record("Artist", "{artist}");
    assert_eq!(render_template("{title}", &album, String::new()), "Artist");
    // an artist that holds an earlier placeholder is not
    let album = record("{title}", "Title");
    assert_eq!(render_template("{artist}", &album, String::new()), "{title}");
}

#[test]
fn default_template_renders_a_full_note() {
    let mut album = record("AC/DC", "Back in Black");
    album.tracklist = vec![track("Hells Bells", 312_000)];
    let note = render_template(default_note_template(), &album, "../album_art/mbid-1.jpg".to_string());
    assert!(note.starts_with("---\ntitle: Back in Black\nartist: AC/DC\nrelease_date: 1980-07-25\nmusicbrainz_id: mbid-1\nprimary_type: Album\n---\n\n# Back in Black\n"));
    assert!(note.contains("**Secondary Types:** None\n"));
    assert!(note.contains("**Cover Art:** ![](../album_art/mbid-1.jpg)\n"));
    assert!(note.contains("## Tracklist\n\n1. Hells Bells (05:12)\n\n## Notes\n"));
    assert!(!note.contains('{'));
}

#[test]
fn album_without_metadata_is_passed_over() {
    assert_eq!(check_metadata(&record("A", "B")), None);
    assert_eq!(check_metadata(&record("", "B")), Some("Skipped B - metadata not yet loaded".to_string()));
    assert_eq!(check_metadata(&record("A", "")), Some("Skipped mbid-1 - metadata not yet loaded".to_string()));
    assert_eq!(check_metadata(&record("", "")), Some("Skipped mbid-1 - metadata not yet loaded".to_string()));
    assert_eq!(
        plan_note_with("{title}", &record("", "B"), "p", false, "x"),
        NoteStep::Skip("Skipped B - metadata not yet loaded".to_string())
    );
}

#[test]
fn existing_note_is_not_written_again() {
    let mut album = record("A", "B");
    album.cover_art_path = Some("data/album_art/mbid-1.jpg".to_string());
    assert_eq!(
        plan_note_with("{title}", &album, "data/notes/A - B.md", true, "../album_art/mbid-1.jpg"),
        NoteStep::Skip("Skipped existing note for A - B".to_string())
    );
}

#[test]
fn note_waits_for_cover_art() {
    let album = record("A", "B");
    assert_eq!(
        plan_note_with("{title}", &album, "data/notes/A - B.md", false, ""),
        NoteStep::Skip("Skipped A - B (waiting for cover art)".to_string())
    );
    assert_eq!(
        plan_note("{title}", &album, "data/notes", "data/notes/A - B.md", false),
        NoteStep::Skip("Skipped A - B (waiting for cover art)".to_string())
    );
}

#[test]
fn note_is_written_with_the_way_to_the_cover_art() {
    let mut album = record("A", "B");
    album.cover_art_path = Some("data/album_art/mbid-1.jpg".to_string());
    assert_eq!(
        plan_note("{artist}: ![]({cover_art_relative_path})", &album, "data/notes", "data/notes/A - B.md", false),
        NoteStep::Write {
            path: "data/notes/A - B.md".to_string(),
            body: "A: ![](../album_art/mbid-1.jpg)".to_string(),
            log: "Generated note: data/notes/A - B.md".to_string(),
        }
    );
}

#[test]
fn absolute_cover_art_path_is_kept_for_relative_notes() {
    let mut album = record("A", "B");
    album.cover_art_path = Some("/srv/art/x.jpg".to_string());
    match plan_note("{cover_art_relative_path}", &album, "data/notes", "p", false) {
        NoteStep::Write { body, .. } => assert_eq!(body, "/srv/art/x.jpg"),
        other => panic!("unexpected step {other:?}"),
    }
    // a relative path cannot be reached from an absolute directory: it is kept
    album.cover_art_path = Some("art/x.jpg".to_string());
    match plan_note("{cover_art_relative_path}", &album, "/srv/notes", "p", false) {
        NoteStep::Write { body, .. } => assert_eq!(body, "art/x.jpg"),
        other => panic!("unexpected step {other:?}"),
    }
}

#[test]
fn line_breaks_in_the_way_to_the_cover_art_are_taken_out() {
    let mut album = record("A", "B");
    album.cover_art_path = Some("x".to_string());
    match plan_note_with("{cover_art_relative_path}", &album, "p", false, "a\r\nb\nc\rd") {
        NoteStep::Write { body, .. } => assert_eq!(body, "a/b/cd"),
        other => panic!("unexpected step {other:?}"),
    }
}

#[test]
fn note_file_name_is_made_safe() {
    assert_eq!(note_path(&record("AC/DC", "Back: in Black?"), "data/notes"), "data/notes/ACDC - Back in Black.md");
    assert_eq!(note_path(&record("A", "B"), "data/notes"), "data/notes/A - B.md");
    assert_eq!(note_path_for("data/notes", "x.md"), "data/notes/x.md");
}

#[test]
fn long_note_file_name_is_cut() {
    let path = note_path(&record("A", &"x".repeat(400)), "n");
    assert_eq!(path.len(), "n/".len() + 255);
}
