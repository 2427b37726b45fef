//! What the program does between a command of its user and the messages that
//! report on it: which commands are carried out at all, what is written to
//! the store, which records go to the cover art worker, and what the log says.
use crate::api::musicbrainz::{error_message, ErrorView, MusicBrainzError};
use crate::library::{held, holds, upserted, LibraryStore};
use crate::messages::{AppMessage, MessageView};
use crate::models::album::{album_views, Album, AlbumView};
use crate::models::artist::{artist_views, display_name_of, Artist, ArtistView};
use crate::models::library::{
    copy_text, record_of_album, record_views, AlbumRecord, AlbumRecordView, CoverArtStatus,
};
use crate::text::{byte_len, count_byte, count_in, trim, trimmed, utf8};
use vstd::prelude::*;
use vstd::string::*;

verus! {

/// Tells whether a query is worth a search: it holds more than white space.
pub open spec fn search_is_due(query: Seq<char>) -> bool {
    trimmed(query).len() > 0
}

/// Tells whether a query is worth a search.
pub fn should_search(query: &str) -> (r: bool)
    ensures
        r == search_is_due(query@),
{
    let core = trim(query);
    !core.as_str().is_empty()
}

/// The result of a search for artists, as plain values.
pub open spec fn artists_result(result: Result<Vec<Artist>, MusicBrainzError>) -> Result<
    Seq<ArtistView>,
    ErrorView,
> {
    match result {
        Ok(artists) => Ok(artist_views(artists@)),
        Err(error) => Err(error@),
    }
}

/// The result of a listing, as plain values.
pub open spec fn albums_result(result: Result<Vec<Album>, MusicBrainzError>) -> Result<
    Seq<AlbumView>,
    ErrorView,
> {
    match result {
        Ok(albums) => Ok(album_views(albums@)),
        Err(error) => Err(error@),
    }
}

/// The result of a fetch of one album, as plain values.
pub open spec fn album_result(result: Result<Album, MusicBrainzError>) -> Result<
    AlbumView,
    ErrorView,
> {
    match result {
        Ok(album) => Ok(album@),
        Err(error) => Err(error@),
    }
}

/// The message that reports a search for artists: the artists found, or, in
/// words of its own, that there are none, or why the search failed.
pub open spec fn artist_search_report(
    query: Seq<char>,
    result: Result<Seq<ArtistView>, ErrorView>,
) -> MessageView {
    match result {
        Ok(artists) => MessageView::ArtistResults(artists),
        Err(ErrorView::Empty) => MessageView::SearchFailed(
            "No artists found for '"@ + query + "'"@,
        ),
        Err(error) => MessageView::SearchFailed("Artist search failed: "@ + error_message(error)),
    }
}

/// Writes the message that reports a search for artists.
pub fn artist_search_message(
    query: &str,
    result: Result<Vec<Artist>, MusicBrainzError>,
) -> (r: AppMessage)
    ensures
        r@ == artist_search_report(query@, artists_result(result)),
{
    match result {
        Ok(artists) => AppMessage::ArtistResults(artists),
        Err(MusicBrainzError::Empty) => {
            let mut line = String::from_str("No artists found for '");
            line.append(query);
            line.append("'");
            AppMessage::SearchFailed(line)
        },
        Err(error) => {
            let mut line = String::from_str("Artist search failed: ");
            let reason = error.message();
            line.append(reason.as_str());
            AppMessage::SearchFailed(line)
        },
    }
}

/// An album of a listing with the artist's name filled in where the album
/// names no artist.
pub open spec fn with_artist(album: AlbumView, name: Seq<char>) -> AlbumView {
    if album.artist.len() == 0 {
        AlbumView { artist: name, ..album }
    } else {
        album
    }
}

/// The message that reports the listing of an artist's albums: the albums,
/// each with the artist's name, or that there are none, or why the listing
/// failed.
pub open spec fn album_listing_report(
    artist: ArtistView,
    result: Result<Seq<AlbumView>, ErrorView>,
) -> MessageView {
    let name = display_name_of(artist.name, artist.disambiguation);
    match result {
        Ok(albums) => MessageView::AlbumsLoaded(
            albums.map_values(|a: AlbumView| with_artist(a, name)),
        ),
        Err(ErrorView::Empty) => MessageView::SearchFailed("No albums found for "@ + name),
        Err(error) => MessageView::SearchFailed("Album fetch failed: "@ + error_message(error)),
    }
}

/// Writes the message that reports the listing of an artist's albums.
pub fn album_listing_message(
    artist: &Artist,
    result: Result<Vec<Album>, MusicBrainzError>,
) -> (r: AppMessage)
    ensures
        r@ == album_listing_report(artist@, albums_result(result)),
{
    let name = artist.display_name();
    match result {
        Ok(albums) => {
            let mut albums = albums;
            let ghost given = albums@;
            let n: usize = albums.len();
            let mut i: usize = 0;
            while i < n
                invariant
                    n == given.len(),
                    albums@.len() == n,
                    i <= n,
                    forall|k: int| 0 <= k < i ==> albums@[k]@ == with_artist(given[k]@, name@),
                    forall|k: int| i <= k < n ==> albums@[k] == given[k],
                decreases n - i,
            {
                if albums[i].artist.as_str().is_empty() {
                    let mut album = albums[i].clone();
                    album.artist = name.clone();
                    albums.set(i, album);
                }
                i = i + 1;
            }
            proof {
                assert(album_views(albums@) =~= album_views(given).map_values(
                    |a: AlbumView| with_artist(a, name@),
                ));
            }
            AppMessage::AlbumsLoaded(albums)
        },
        Err(MusicBrainzError::Empty) => {
            let mut line = String::from_str("No albums found for ");
            line.append(name.as_str());
            AppMessage::SearchFailed(line)
        },
        Err(error) => {
            let mut line = String::from_str("Album fetch failed: ");
            let reason = error.message();
            line.append(reason.as_str());
            AppMessage::SearchFailed(line)
        },
    }
}

/// The table after the albums of a list were added at the moment `now`, one
/// after the other: an album whose id the table holds is passed over; every
/// other album is written as a fresh record, still without cover art.
pub open spec fn added(records: Seq<AlbumRecordView>, albums: Seq<AlbumView>, now: Seq<char>) -> Seq<
    AlbumRecordView,
>
    decreases albums.len(),
{
    if albums.len() == 0 {
        records
    } else {
        let before = added(records, albums.drop_last(), now);
        if holds(before, albums.last().id) {
            before
        } else {
            upserted(before, record_of_album(albums.last(), now), now)
        }
    }
}

/// The records that adding the albums of a list has written, in the order of
/// the list.
pub open spec fn fresh_records(
    records: Seq<AlbumRecordView>,
    albums: Seq<AlbumView>,
    now: Seq<char>,
) -> Seq<AlbumRecordView>
    decreases albums.len(),
{
    if albums.len() == 0 {
        Seq::empty()
    } else {
        let before = added(records, albums.drop_last(), now);
        let fresh = fresh_records(records, albums.drop_last(), now);
        if holds(before, albums.last().id) {
            fresh
        } else {
            fresh.push(record_of_album(albums.last(), now))
        }
    }
}

/// Adds albums to the store at the moment `now` and hands back the records
/// that were written: those are the ones whose full metadata has yet to be
/// fetched.
pub fn add_albums(store: &mut LibraryStore, albums: &Vec<Album>, now: &str) -> (r: Vec<AlbumRecord>)
    ensures
        final(store)@ == added(old(store)@, album_views(albums@), now@),
        record_views(r@) == fresh_records(old(store)@, album_views(albums@), now@),
{
    let mut fresh: Vec<AlbumRecord> = Vec::new();
    let n: usize = albums.len();
    let ghost all = album_views(albums@);
    let mut i: usize = 0;
    proof {
        assert(all.take(0) =~= Seq::<AlbumView>::empty());
        assert(record_views(fresh@) =~= Seq::<AlbumRecordView>::empty());
    }
    while i < n
        invariant
            n == albums@.len(),
            all == album_views(albums@),
            i <= n,
            store@ == added(old(store)@, all.take(i as int), now@),
            record_views(fresh@) == fresh_records(old(store)@, all.take(i as int), now@),
        decreases n - i,
    {
        let album = &albums[i];
        proof {
            assert(all.take(i + 1).drop_last() =~= all.take(i as int));
            assert(all.take(i + 1).last() == album@);
        }
        if !store.contains(album.id.as_str()) {
            let record = AlbumRecord::from_album_at(album, now);
            let ghost before = record_views(fresh@);
            fresh.push(record.clone());
            store.upsert_album_at(record, now);
            proof {
                assert(record_views(fresh@) =~= before.push(record_of_album(album@, now@)));
            }
        }
        i = i + 1;
    }
    proof {
        assert(all.take(n as int) =~= all);
    }
    fresh
}

/// The message that shows the whole store.
pub fn refresh_message(store: &LibraryStore) -> (r: AppMessage)
    ensures
        r matches AppMessage::LibraryRefreshed(records) && crate::library::is_listing_of(
            store@,
            record_views(records@),
        ),
{
    AppMessage::LibraryRefreshed(store.all_albums())
}

/// What a change of the store leaves to do: a line for the log, and the
/// record to hand to the cover art worker, where there is one.
#[derive(Debug, PartialEq)]
pub struct StoreReport {
    pub log: String,
    pub job: Option<AlbumRecord>,
}

/// The record of an album whose full metadata has come.
pub open spec fn queued_record(album: AlbumView, now: Seq<char>) -> AlbumRecordView {
    AlbumRecordView { cover_art_status: CoverArtStatus::Queued, ..record_of_album(album, now) }
}

/// The table after the fetch of an album's metadata has ended at the moment
/// `now`: the album is written with its cover art queued, and a failed fetch
/// leaves the table as it is.
pub open spec fn enriched(
    records: Seq<AlbumRecordView>,
    result: Result<AlbumView, ErrorView>,
    now: Seq<char>,
) -> Seq<AlbumRecordView> {
    match result {
        Ok(album) => upserted(records, queued_record(album, now), now),
        Err(_) => records,
    }
}

/// The line for the log after the fetch of an album's metadata.
pub open spec fn enrichment_line(title: Seq<char>, result: Result<AlbumView, ErrorView>) -> Seq<
    char,
> {
    match result {
        Ok(album) => "Metadata fetched for "@ + album.artist + " - "@ + album.title,
        Err(error) => "Failed to fetch metadata for "@ + title + ": "@ + error_message(error),
    }
}

/// The view of an optional record.
pub open spec fn job_view(job: Option<AlbumRecord>) -> Option<AlbumRecordView> {
    match job {
        Some(record) => Some(record@),
        None => None,
    }
}

/// The line for the log before the fetch of an album's metadata.
pub fn fetching_metadata_line(title: &str) -> (r: String)
    ensures
        r@ == "Fetching metadata for "@ + title@ + "..."@,
{
    let mut line = String::from_str("Fetching metadata for ");
    line.append(title);
    line.append("...");
    line
}

/// Takes in the end of the fetch of the metadata of the album that was added
/// under the title `title`. Metadata that came is written to the store, and
/// the record goes to the cover art worker; a failure is a line for the log.
pub fn metadata_arrived(
    store: &mut LibraryStore,
    title: &str,
    result: Result<Album, MusicBrainzError>,
    now: &str,
) -> (r: StoreReport)
    ensures
        final(store)@ == enriched(old(store)@, album_result(result), now@),
        r.log@ == enrichment_line(title@, album_result(result)),
        job_view(r.job) == match album_result(result) {
            Ok(album) => Some(queued_record(album, now@)),
            Err(_) => None,
        },
{
    match result {
        Ok(album) => {
            let mut record = AlbumRecord::from_album_at(&album, now);
            record.cover_art_status = CoverArtStatus::Queued;
            store.upsert_album_at(record.clone(), now);
            let mut line = String::from_str("Metadata fetched for ");
            line.append(record.artist.as_str());
            line.append(" - ");
            line.append(record.title.as_str());
            StoreReport { log: line, job: Some(record) }
        },
        Err(error) => {
            let mut line = String::from_str("Failed to fetch metadata for ");
            line.append(title);
            line.append(": ");
            let reason = error.message();
            line.append(reason.as_str());
            StoreReport { log: line, job: None }
        },
    }
}

/// What becomes of an id that the user typed in.
#[derive(Debug, PartialEq)]
pub enum IdCheck {
    /// Nothing was typed: nothing is done.
    Nothing,
    /// What was typed is no id: the line says so.
    Invalid(String),
    /// The id to fetch.
    Valid(String),
}

/// What an [`IdCheck`] holds, as plain values.
pub enum IdCheckView {
    Nothing,
    Invalid(Seq<char>),
    Valid(Seq<char>),
}

impl View for IdCheck {
    type V = IdCheckView;

    open spec fn view(&self) -> IdCheckView {
        match self {
            IdCheck::Nothing => IdCheckView::Nothing,
            IdCheck::Invalid(line) => IdCheckView::Invalid(line@),
            IdCheck::Valid(id) => IdCheckView::Valid(id@),
        }
    }
}

/// Tells whether a text has the form of an id: 36 bytes, four of them
/// hyphens.
pub open spec fn has_id_form(id: Seq<char>) -> bool {
    utf8(id).len() == 36 && count_byte(utf8(id), 45) == 4
}

/// What becomes of an id that was typed in: white space at its ends does not
/// count; nothing typed is nothing to do; what has not the form of an id is
/// refused with a line for the log.
pub open spec fn id_check(input: Seq<char>) -> IdCheckView {
    let id = trimmed(input);
    if id.len() == 0 {
        IdCheckView::Nothing
    } else if !has_id_form(id) {
        IdCheckView::Invalid(
            "Invalid ID format: "@ + id
                + " (expected UUID format like 'xxxxxxxx-xxxx-xxxx-xxxx-xxxxxxxxxxxx')"@,
        )
    } else {
        IdCheckView::Valid(id)
    }
}

/// Checks an id that the user typed in.
pub fn check_release_id(input: &str) -> (r: IdCheck)
    ensures
        r@ == id_check(input@),
{
    let id = trim(input);
    if id.as_str().is_empty() {
        return IdCheck::Nothing;
    }
    if byte_len(id.as_str()) != 36 || count_in(id.as_str(), 45) != 4 {
        let mut line = String::from_str("Invalid ID format: ");
        line.append(id.as_str());
        line.append(" (expected UUID format like 'xxxxxxxx-xxxx-xxxx-xxxx-xxxxxxxxxxxx')");
        return IdCheck::Invalid(line);
    }
    IdCheck::Valid(id)
}

/// The line for the log before the fetch of a release by its id.
pub fn fetching_line(id: &str) -> (r: String)
    ensures
        r@ == "Fetching "@ + id@ + "..."@,
{
    let mut line = String::from_str("Fetching ");
    line.append(id);
    line.append("...");
    line
}

/// What follows a fetch by release id that failed.
#[derive(Debug, PartialEq)]
pub enum ReleaseFallback {
    /// The id may be that of a release group: say so, and fetch it as one.
    TryReleaseGroup(String),
    /// There is nothing more to try: the line says why.
    Report(String),
}

/// What a [`ReleaseFallback`] holds, as plain values.
pub enum ReleaseFallbackView {
    TryReleaseGroup(Seq<char>),
    Report(Seq<char>),
}

impl View for ReleaseFallback {
    type V = ReleaseFallbackView;

    open spec fn view(&self) -> ReleaseFallbackView {
        match self {
            ReleaseFallback::TryReleaseGroup(line) => ReleaseFallbackView::TryReleaseGroup(line@),
            ReleaseFallback::Report(line) => ReleaseFallbackView::Report(line@),
        }
    }
}

/// What follows a fetch by release id that failed: after the status 404 the
/// id is tried as that of a release group; the status 503 means that the
/// catalog is busy; every other error is reported as it is.
pub open spec fn release_fallback(error: ErrorView) -> ReleaseFallbackView {
    match error {
        ErrorView::Status(404) => ReleaseFallbackView::TryReleaseGroup(
            "Not a release ID, trying as release-group ID..."@,
        ),
        ErrorView::Status(503) => ReleaseFallbackView::Report(
            "MusicBrainz service unavailable (rate limited). Wait a moment and try again."@,
        ),
        _ => ReleaseFallbackView::Report("Failed to fetch: "@ + error_message(error)),
    }
}

/// Decides what follows a fetch by release id that failed.
pub fn after_release_failure(error: &MusicBrainzError) -> (r: ReleaseFallback)
    ensures
        r@ == release_fallback(error@),
{
    match error {
        MusicBrainzError::Status(status) => {
            if *status == 404 {
                return ReleaseFallback::TryReleaseGroup(
                    String::from_str("Not a release ID, trying as release-group ID..."),
                );
            }
            if *status == 503 {
                return ReleaseFallback::Report(
                    String::from_str(
                        "MusicBrainz service unavailable (rate limited). Wait a moment and try again.",
                    ),
                );
            }
        },
        _ => {},
    }
    let mut line = String::from_str("Failed to fetch: ");
    let reason = error.message();
    line.append(reason.as_str());
    ReleaseFallback::Report(line)
}

/// The line for the log when an id is that of no release and of no release
/// group.
pub fn not_found_line(id: &str) -> (r: String)
    ensures
        r@ == "ID not found as release or release-group: "@ + id@
            + " (check the ID is correct)"@,
{
    let mut line = String::from_str("ID not found as release or release-group: ");
    line.append(id);
    line.append(" (check the ID is correct)");
    line
}

/// The record that is written for an album that was fetched by id, where
/// `existing` is the record that the store holds for it. A record whose cover
/// art is complete keeps it; every other record is queued for cover art. The
/// note of the old record stays.
pub open spec fn merged_record(
    existing: Option<AlbumRecordView>,
    album: AlbumView,
    now: Seq<char>,
) -> AlbumRecordView {
    match existing {
        Some(stored) => {
            let fresh = record_of_album(album, now);
            if stored.cover_art_status == CoverArtStatus::Completed {
                AlbumRecordView {
                    cover_art_status: CoverArtStatus::Completed,
                    cover_art_path: stored.cover_art_path,
                    note_path: stored.note_path,
                    note_status: stored.note_status,
                    ..fresh
                }
            } else {
                AlbumRecordView {
                    cover_art_status: CoverArtStatus::Queued,
                    note_path: stored.note_path,
                    note_status: stored.note_status,
                    ..fresh
                }
            }
        },
        None => queued_record(album, now),
    }
}

/// An album that was fetched never puts a record back: the record that is
/// written is never `Pending`, and cover art that was complete stays
/// complete, with its path.
pub proof fn lemma_merge_moves_forward(
    existing: Option<AlbumRecordView>,
    album: AlbumView,
    now: Seq<char>,
)
    ensures
        merged_record(existing, album, now).cover_art_status != CoverArtStatus::Pending,
        queued_record(album, now).cover_art_status == CoverArtStatus::Queued,
        existing is Some && existing->0.cover_art_status == CoverArtStatus::Completed ==> {
            &&& merged_record(existing, album, now).cover_art_status == CoverArtStatus::Completed
            &&& merged_record(existing, album, now).cover_art_path == existing->0.cover_art_path
        },
        existing is Some ==> merged_record(existing, album, now).note_status
            == existing->0.note_status,
{
}

/// The line for the log after an album that was fetched by id was written.
pub open spec fn merge_line(existing: Option<AlbumRecordView>, album: AlbumView) -> Seq<char> {
    (if existing is Some {
        "Updated album in library: "@
    } else {
        "Added to library: "@
    }) + album.artist + " - "@ + album.title
}

/// Writes an album that was fetched by id to the store at the moment `now`.
/// The record goes to the cover art worker unless its cover art was complete
/// before.
pub fn merge_fetched_album(store: &mut LibraryStore, album: &Album, now: &str) -> (r: StoreReport)
    ensures
        final(store)@ == upserted(
            old(store)@,
            merged_record(held(old(store)@, album@.id), album@, now@),
            now@,
        ),
        r.log@ == merge_line(held(old(store)@, album@.id), album@),
        job_view(r.job) == if held(old(store)@, album@.id) matches Some(stored)
            && stored.cover_art_status == CoverArtStatus::Completed {
            None
        } else {
            Some(merged_record(held(old(store)@, album@.id), album@, now@))
        },
{
    let existing = store.get_album(album.id.as_str());
    let mut record = AlbumRecord::from_album_at(album, now);
    let mut line: String;
    let queue: bool;
    match existing {
        Some(stored) => {
            if stored.cover_art_status == CoverArtStatus::Completed {
                record.cover_art_status = CoverArtStatus::Completed;
                record.cover_art_path = copy_text(&stored.cover_art_path);
                queue = false;
            } else {
                record.cover_art_status = CoverArtStatus::Queued;
                queue = true;
            }
            record.note_path = copy_text(&stored.note_path);
            record.note_status = stored.note_status;
            line = String::from_str("Updated album in library: ");
        },
        None => {
            record.cover_art_status = CoverArtStatus::Queued;
            queue = true;
            line = String::from_str("Added to library: ");
        },
    }
    line.append(record.artist.as_str());
    line.append(" - ");
    line.append(record.title.as_str());
    store.upsert_album_at(record.clone(), now);
    StoreReport {
        log: line,
        job: if queue {
            Some(record)
        } else {
            None
        },
    }
}

/// The message that reports a run of the note writer: its lines, or that it
/// failed.
pub fn notes_message(result: Result<Vec<String>, String>) -> (r: AppMessage)
    ensures
        match result {
            Ok(lines) => r@ == MessageView::NotesGenerated(crate::text::views(lines@)),
            Err(reason) => r@ == MessageView::DownloadLog("Note generation failed: "@ + reason@),
        },
{
    match result {
        Ok(lines) => AppMessage::NotesGenerated(lines),
        Err(reason) => {
            let mut line = String::from_str("Note generation failed: ");
            line.append(reason.as_str());
            AppMessage::DownloadLog(line)
        },
    }
}

} // verus!
