//! Albums and their tracks, as the catalog client hands them out.
use crate::text::{copy_strings, join, joined, views};
use vstd::prelude::*;
use vstd::string::*;

verus! {

#[derive(Debug, PartialEq)]
pub struct TrackInfo {
    pub position: String,
    pub title: String,
    pub length_ms: i64,
}

/// What a [`TrackInfo`] holds, as plain values.
pub struct TrackView {
    pub position: Seq<char>,
    pub title: Seq<char>,
    pub length_ms: int,
}

impl View for TrackInfo {
    type V = TrackView;

    open spec fn view(&self) -> TrackView {
        TrackView { position: self.position@, title: self.title@, length_ms: self.length_ms as int }
    }
}

impl Default for TrackInfo {
    fn default() -> (r: Self)
        ensures
            r@ == (TrackView { position: Seq::empty(), title: Seq::empty(), length_ms: 0 }),
    {
        TrackInfo { position: String::new(), title: String::new(), length_ms: 0 }
    }
}

impl Clone for TrackInfo {
    fn clone(&self) -> (r: Self)
        ensures
            r@ == self@,
    {
        TrackInfo {
            position: self.position.clone(),
            title: self.title.clone(),
            length_ms: self.length_ms,
        }
    }
}

/// The views of a list of tracks.
pub open spec fn track_views(list: Seq<TrackInfo>) -> Seq<TrackView> {
    list.map_values(|t: TrackInfo| t@)
}

/// Copies a list of tracks.
pub fn copy_tracks(list: &Vec<TrackInfo>) -> (r: Vec<TrackInfo>)
    ensures
        track_views(r@) == track_views(list@),
{
    let mut out: Vec<TrackInfo> = Vec::new();
    let n: usize = list.len();
    let mut i: usize = 0;
    while i < n
        invariant
            n == list@.len(),
            i <= n,
            out@.len() == i,
            forall|k: int| 0 <= k < i ==> out@[k]@ == list@[k]@,
        decreases n - i,
    {
        out.push(list[i].clone());
        i = i + 1;
    }
    proof {
        assert(track_views(out@) =~= track_views(list@));
    }
    out
}

#[derive(Debug, PartialEq)]
pub struct Album {
    /// The release group's id: the key under which the album is stored.
    pub id: String,
    /// The id of the release chosen for the group; empty until one is known.
    pub release_id: String,
    pub title: String,
    pub artist: String,
    pub primary_type: String,
    pub secondary_types: Vec<String>,
    pub status: String,
    pub first_release_date: String,
    pub disambiguation: String,
    pub label: String,
    pub country: String,
    pub tracklist: Vec<TrackInfo>,
}

/// What an [`Album`] holds, as plain values.
pub struct AlbumView {
    pub id: Seq<char>,
    pub release_id: Seq<char>,
    pub title: Seq<char>,
    pub artist: Seq<char>,
    pub primary_type: Seq<char>,
    pub secondary_types: Seq<Seq<char>>,
    pub status: Seq<char>,
    pub first_release_date: Seq<char>,
    pub disambiguation: Seq<char>,
    pub label: Seq<char>,
    pub country: Seq<char>,
    pub tracklist: Seq<TrackView>,
}

impl View for Album {
    type V = AlbumView;

    open spec fn view(&self) -> AlbumView {
        AlbumView {
            id: self.id@,
            release_id: self.release_id@,
            title: self.title@,
            artist: self.artist@,
            primary_type: self.primary_type@,
            secondary_types: views(self.secondary_types@),
            status: self.status@,
            first_release_date: self.first_release_date@,
            disambiguation: self.disambiguation@,
            label: self.label@,
            country: self.country@,
            tracklist: track_views(self.tracklist@),
        }
    }
}

/// The views of a list of albums.
pub open spec fn album_views(list: Seq<Album>) -> Seq<AlbumView> {
    list.map_values(|a: Album| a@)
}

/// The album with nothing in it.
pub open spec fn empty_album() -> AlbumView {
    AlbumView {
        id: Seq::empty(),
        release_id: Seq::empty(),
        title: Seq::empty(),
        artist: Seq::empty(),
        primary_type: Seq::empty(),
        secondary_types: Seq::empty(),
        status: Seq::empty(),
        first_release_date: Seq::empty(),
        disambiguation: Seq::empty(),
        label: Seq::empty(),
        country: Seq::empty(),
        tracklist: Seq::empty(),
    }
}

/// Where the front cover of an album is fetched from. The archive is asked by
/// release id where one is known, and by the release group's id otherwise.
pub open spec fn cover_art_url_of(id: Seq<char>, release_id: Seq<char>) -> Seq<char> {
    "https://coverartarchive.org/release/"@ + (if release_id.len() == 0 {
        id
    } else {
        release_id
    }) + "/front"@
}

/// The secondary types on one line: `None` where there are none, else the
/// types with a comma and a space between them.
pub open spec fn secondary_types_label_of(types: Seq<Seq<char>>) -> Seq<char> {
    if types.len() == 0 {
        "None"@
    } else {
        joined(types, ", "@)
    }
}

impl Default for Album {
    fn default() -> (r: Self)
        ensures
            r@ == empty_album(),
    {
        let r = Album {
            id: String::new(),
            release_id: String::new(),
            title: String::new(),
            artist: String::new(),
            primary_type: String::new(),
            secondary_types: Vec::new(),
            status: String::new(),
            first_release_date: String::new(),
            disambiguation: String::new(),
            label: String::new(),
            country: String::new(),
            tracklist: Vec::new(),
        };
        proof {
            assert(views(r.secondary_types@) =~= Seq::empty());
            assert(track_views(r.tracklist@) =~= Seq::empty());
        }
        r
    }
}

impl Clone for Album {
    fn clone(&self) -> (r: Self)
        ensures
            r@ == self@,
    {
        Album {
            id: self.id.clone(),
            release_id: self.release_id.clone(),
            title: self.title.clone(),
            artist: self.artist.clone(),
            primary_type: self.primary_type.clone(),
            secondary_types: copy_strings(&self.secondary_types),
            status: self.status.clone(),
            first_release_date: self.first_release_date.clone(),
            disambiguation: self.disambiguation.clone(),
            label: self.label.clone(),
            country: self.country.clone(),
            tracklist: copy_tracks(&self.tracklist),
        }
    }
}

impl Album {
    pub fn cover_art_url(&self) -> (r: String)
        ensures
            r@ == cover_art_url_of(self.id@, self.release_id@),
    {
        let mut out = String::from_str("https://coverartarchive.org/release/");
        if self.release_id.as_str().is_empty() {
            out.append(self.id.as_str());
        } else {
            out.append(self.release_id.as_str());
        }
        out.append("/front");
        out
    }

    pub fn secondary_types_label(&self) -> (r: String)
        ensures
            r@ == secondary_types_label_of(views(self.secondary_types@)),
    {
        if self.secondary_types.len() == 0 {
            String::from_str("None")
        } else {
            join(&self.secondary_types, ", ")
        }
    }
}

/// Copies a list of albums.
pub fn copy_albums(list: &Vec<Album>) -> (r: Vec<Album>)
    ensures
        album_views(r@) == album_views(list@),
{
    let mut out: Vec<Album> = Vec::new();
    let n: usize = list.len();
    let mut i: usize = 0;
    while i < n
        invariant
            n == list@.len(),
            i <= n,
            out@.len() == i,
            forall|k: int| 0 <= k < i ==> out@[k]@ == list@[k]@,
        decreases n - i,
    {
        out.push(list[i].clone());
        i = i + 1;
    }
    proof {
        assert(album_views(out@) =~= album_views(list@));
    }
    out
}

} // verus!
