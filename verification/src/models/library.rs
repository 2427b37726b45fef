//! The stored form of an album: what the catalog knows of it, where its cover
//! art and its note stand, and when it was last written.
use crate::clock::utc_now_rfc3339;
use crate::models::album::{
    copy_tracks, secondary_types_label_of, track_views, Album, AlbumView, TrackInfo, TrackView,
    cover_art_url_of,
};
use crate::text::{
    copy_strings, decimal, join, render_decimal, render_two_digit, two_digit, views,
};
use vstd::prelude::*;
use vstd::string::*;

verus! {

/// Where the cover art of a stored album stands. A status only moves forward:
/// from `Pending` to `Queued`, and from there to `Completed` or `Unavailable`.
#[derive(Debug, Clone, Copy, PartialEq, Eq, Structural)]
pub enum CoverArtStatus {
    Pending,
    Queued,
    Downloading,
    Completed,
    Unavailable,
}

impl Default for CoverArtStatus {
    fn default() -> (r: Self)
        ensures
            r == CoverArtStatus::Pending,
    {
        CoverArtStatus::Pending
    }
}

/// Whether a note was written for a stored album.
#[derive(Debug, Clone, Copy, PartialEq, Eq, Structural)]
pub enum NoteStatus {
    NotGenerated,
    Generated,
}

impl Default for NoteStatus {
    fn default() -> (r: Self)
        ensures
            r == NoteStatus::NotGenerated,
    {
        NoteStatus::NotGenerated
    }
}

#[derive(Debug, PartialEq)]
pub struct AlbumRecord {
    pub mbid: String,
    pub title: String,
    pub artist: String,
    pub primary_type: String,
    pub secondary_types: Vec<String>,
    pub status: String,
    pub release_date: String,
    pub label: String,
    pub country: String,
    pub disambiguation: String,
    pub cover_art_url: String,
    pub cover_art_path: Option<String>,
    pub note_path: Option<String>,
    pub tracklist: Vec<TrackInfo>,
    pub cover_art_status: CoverArtStatus,
    pub note_status: NoteStatus,
    pub created_at_utc: String,
    pub updated_at_utc: String,
}

/// What an [`AlbumRecord`] holds, as plain values.
pub struct AlbumRecordView {
    pub mbid: Seq<char>,
    pub title: Seq<char>,
    pub artist: Seq<char>,
    pub primary_type: Seq<char>,
    pub secondary_types: Seq<Seq<char>>,
    pub status: Seq<char>,
    pub release_date: Seq<char>,
    pub label: Seq<char>,
    pub country: Seq<char>,
    pub disambiguation: Seq<char>,
    pub cover_art_url: Seq<char>,
    pub cover_art_path: Option<Seq<char>>,
    pub note_path: Option<Seq<char>>,
    pub tracklist: Seq<TrackView>,
    pub cover_art_status: CoverArtStatus,
    pub note_status: NoteStatus,
    pub created_at_utc: Seq<char>,
    pub updated_at_utc: Seq<char>,
}

/// The view of an optional string.
pub open spec fn text_of(value: Option<String>) -> Option<Seq<char>> {
    match value {
        Some(s) => Some(s@),
        None => None,
    }
}

impl View for AlbumRecord {
    type V = AlbumRecordView;

    open spec fn view(&self) -> AlbumRecordView {
        AlbumRecordView {
            mbid: self.mbid@,
            title: self.title@,
            artist: self.artist@,
            primary_type: self.primary_type@,
            secondary_types: views(self.secondary_types@),
            status: self.status@,
            release_date: self.release_date@,
            label: self.label@,
            country: self.country@,
            disambiguation: self.disambiguation@,
            cover_art_url: self.cover_art_url@,
            cover_art_path: text_of(self.cover_art_path),
            note_path: text_of(self.note_path),
            tracklist: track_views(self.tracklist@),
            cover_art_status: self.cover_art_status,
            note_status: self.note_status,
            created_at_utc: self.created_at_utc@,
            updated_at_utc: self.updated_at_utc@,
        }
    }
}

/// The views of a list of records.
pub open spec fn record_views(list: Seq<AlbumRecord>) -> Seq<AlbumRecordView> {
    list.map_values(|r: AlbumRecord| r@)
}

/// The record first stored for an album at the moment `now`: the album's
/// fields, no cover art and no note yet, both time stamps set to `now`.
pub open spec fn record_of_album(album: AlbumView, now: Seq<char>) -> AlbumRecordView {
    AlbumRecordView {
        mbid: album.id,
        title: album.title,
        artist: album.artist,
        primary_type: album.primary_type,
        secondary_types: album.secondary_types,
        status: album.status,
        release_date: album.first_release_date,
        label: album.label,
        country: album.country,
        disambiguation: album.disambiguation,
        cover_art_url: cover_art_url_of(album.id, album.release_id),
        cover_art_path: None,
        note_path: None,
        tracklist: album.tracklist,
        cover_art_status: CoverArtStatus::Pending,
        note_status: NoteStatus::NotGenerated,
        created_at_utc: now,
        updated_at_utc: now,
    }
}

/// The record with nothing in it but the two time stamps.
pub open spec fn empty_record(now: Seq<char>) -> AlbumRecordView {
    AlbumRecordView {
        mbid: Seq::empty(),
        title: Seq::empty(),
        artist: Seq::empty(),
        primary_type: Seq::empty(),
        secondary_types: Seq::empty(),
        status: Seq::empty(),
        release_date: Seq::empty(),
        label: Seq::empty(),
        country: Seq::empty(),
        disambiguation: Seq::empty(),
        cover_art_url: Seq::empty(),
        cover_art_path: None,
        note_path: None,
        tracklist: Seq::empty(),
        cover_art_status: CoverArtStatus::Pending,
        note_status: NoteStatus::NotGenerated,
        created_at_utc: now,
        updated_at_utc: now,
    }
}

/// One line of a track listing: the track's number in the list, a dot, the
/// title and, where the length is known, minutes and seconds in round
/// brackets, each at least two digits wide.
pub open spec fn track_line(number: nat, track: TrackView) -> Seq<char> {
    if track.length_ms <= 0 {
        decimal(number) + ". "@ + track.title
    } else {
        decimal(number) + ". "@ + track.title + " ("@ + two_digit(
            (track.length_ms / 60000) as nat,
        ) + ":"@ + two_digit(((track.length_ms % 60000) / 1000) as nat) + ")"@
    }
}

/// The listing of a track list: one line for each track, numbered from 1.
pub open spec fn track_lines(tracks: Seq<TrackView>) -> Seq<Seq<char>> {
    Seq::new(tracks.len(), |i: int| track_line((i + 1) as nat, tracks[i]))
}

/// The file name of a record's cover art.
pub open spec fn cover_art_filename_of(mbid: Seq<char>) -> Seq<char> {
    mbid + ".jpg"@
}

/// The file name of a record's note, before it is made safe for a file system.
pub open spec fn note_filename_of(artist: Seq<char>, title: Seq<char>) -> Seq<char> {
    artist + " - "@ + title + ".md"@
}

/// Copies an optional string.
pub fn copy_text(value: &Option<String>) -> (r: Option<String>)
    ensures
        text_of(r) == text_of(*value),
{
    match value {
        Some(s) => Some(s.clone()),
        None => None,
    }
}

impl Clone for AlbumRecord {
    fn clone(&self) -> (r: Self)
        ensures
            r@ == self@,
    {
        AlbumRecord {
            mbid: self.mbid.clone(),
            title: self.title.clone(),
            artist: self.artist.clone(),
            primary_type: self.primary_type.clone(),
            secondary_types: copy_strings(&self.secondary_types),
            status: self.status.clone(),
            release_date: self.release_date.clone(),
            label: self.label.clone(),
            country: self.country.clone(),
            disambiguation: self.disambiguation.clone(),
            cover_art_url: self.cover_art_url.clone(),
            cover_art_path: copy_text(&self.cover_art_path),
            note_path: copy_text(&self.note_path),
            tracklist: copy_tracks(&self.tracklist),
            cover_art_status: self.cover_art_status,
            note_status: self.note_status,
            created_at_utc: self.created_at_utc.clone(),
            updated_at_utc: self.updated_at_utc.clone(),
        }
    }
}

impl Default for AlbumRecord {
    /// The empty record, stamped with the time of the call.
    fn default() -> (r: Self)
        ensures
            r@ == empty_record(r@.created_at_utc),
    {
        let now = utc_now_rfc3339();
        AlbumRecord::empty_at(now.as_str())
    }
}

impl AlbumRecord {
    /// The empty record, stamped with `now`.
    pub fn empty_at(now: &str) -> (r: Self)
        ensures
            r@ == empty_record(now@),
    {
        let r = AlbumRecord {
            mbid: String::new(),
            title: String::new(),
            artist: String::new(),
            primary_type: String::new(),
            secondary_types: Vec::new(),
            status: String::new(),
            release_date: String::new(),
            label: String::new(),
            country: String::new(),
            disambiguation: String::new(),
            cover_art_url: String::new(),
            cover_art_path: None,
            note_path: None,
            tracklist: Vec::new(),
            cover_art_status: CoverArtStatus::Pending,
            note_status: NoteStatus::NotGenerated,
            created_at_utc: String::from_str(now),
            updated_at_utc: String::from_str(now),
        };
        proof {
            assert(views(r.secondary_types@) =~= Seq::empty());
            assert(track_views(r.tracklist@) =~= Seq::empty());
        }
        r
    }

    /// The record first stored for an album, stamped with `now`.
    pub fn from_album_at(album: &Album, now: &str) -> (r: Self)
        ensures
            r@ == record_of_album(album@, now@),
    {
        AlbumRecord {
            mbid: album.id.clone(),
            title: album.title.clone(),
            artist: album.artist.clone(),
            primary_type: album.primary_type.clone(),
            secondary_types: copy_strings(&album.secondary_types),
            status: album.status.clone(),
            release_date: album.first_release_date.clone(),
            label: album.label.clone(),
            country: album.country.clone(),
            disambiguation: album.disambiguation.clone(),
            cover_art_url: album.cover_art_url(),
            cover_art_path: None,
            note_path: None,
            tracklist: copy_tracks(&album.tracklist),
            cover_art_status: CoverArtStatus::Pending,
            note_status: NoteStatus::NotGenerated,
            created_at_utc: String::from_str(now),
            updated_at_utc: String::from_str(now),
        }
    }

    /// The record first stored for an album, stamped with the time of the
    /// call: whatever the clock reads, both stamps hold that one reading.
    pub fn from_album(album: &Album) -> (r: Self)
        ensures
            r@ == record_of_album(album@, r@.created_at_utc),
    {
        let now = utc_now_rfc3339();
        AlbumRecord::from_album_at(album, now.as_str())
    }

    /// Sets the time of the last change to `now` and leaves the rest.
    pub fn touch_at(&mut self, now: &str)
        ensures
            final(self)@ == (AlbumRecordView { updated_at_utc: now@, ..old(self)@ }),
    {
        self.updated_at_utc = String::from_str(now);
    }

    /// Sets the time of the last change to the time of the call and leaves
    /// the rest.
    pub fn touch(&mut self)
        ensures
            final(self)@ == (AlbumRecordView {
                updated_at_utc: final(self)@.updated_at_utc,
                ..old(self)@
            }),
    {
        let now = utc_now_rfc3339();
        self.touch_at(now.as_str());
    }

    pub fn cover_art_filename(&self) -> (r: String)
        ensures
            r@ == cover_art_filename_of(self.mbid@),
    {
        let mut out = self.mbid.clone();
        out.append(".jpg");
        out
    }

    pub fn note_filename(&self) -> (r: String)
        ensures
            r@ == note_filename_of(self.artist@, self.title@),
    {
        let mut out = self.artist.clone();
        out.append(" - ");
        out.append(self.title.as_str());
        out.append(".md");
        out
    }

    pub fn as_track_listing_lines(&self) -> (r: Vec<String>)
        ensures
            views(r@) == track_lines(track_views(self.tracklist@)),
    {
        let mut lines: Vec<String> = Vec::new();
        let n: usize = self.tracklist.len();
        let mut i: usize = 0;
        while i < n
            invariant
                n == self.tracklist@.len(),
                i <= n,
                lines@.len() == i,
                forall|k: int|
                    0 <= k < i ==> lines@[k]@ == track_line((k + 1) as nat, self.tracklist@[k]@),
            decreases n - i,
        {
            let track = &self.tracklist[i];
            let number: u64 = (i + 1) as u64;
            let mut line = render_decimal(number);
            line.append(". ");
            line.append(track.title.as_str());
            if track.length_ms > 0 {
                let ms: u64 = track.length_ms as u64;
                let minutes = render_two_digit(ms / 60000);
                let seconds = render_two_digit((ms % 60000) / 1000);
                line.append(" (");
                line.append(minutes.as_str());
                line.append(":");
                line.append(seconds.as_str());
                line.append(")");
            }
            lines.push(line);
            i = i + 1;
        }
        proof {
            assert(views(lines@) =~= track_lines(track_views(self.tracklist@)));
        }
        lines
    }

    pub fn secondary_types_label(&self) -> (r: String)
        ensures
            r@ == secondary_types_label_of(views(self.secondary_types@)),
    {
        if self.secondary_types.len() == 0 {
            String::from_str("None")
        } else {
            join(&self.secondary_types, ", ")
        }
    }
}

/// Copies a list of records.
pub fn copy_records(list: &Vec<AlbumRecord>) -> (r: Vec<AlbumRecord>)
    ensures
        record_views(r@) == record_views(list@),
{
    let mut out: Vec<AlbumRecord> = Vec::new();
    let n: usize = list.len();
    let mut i: usize = 0;
    while i < n
        invariant
            n == list@.len(),
            i <= n,
            out@.len() == i,
            forall|k: int| 0 <= k < i ==> out@[k]@ == list@[k]@,
        decreases n - i,
    {
        out.push(list[i].clone());
        i = i + 1;
    }
    proof {
        assert(record_views(out@) =~= record_views(list@));
    }
    out
}

} // verus!
