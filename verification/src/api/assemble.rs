//! Turning the catalog's answers into albums, artists and tracks.
use crate::api::wire::{
    text_or_number, ArtistCredit, ArtistItem, LabelInfo, Medium, ReleaseGroupDetail,
    ReleaseGroupItem, ReleaseItem, TextOrNumber, TrackItem,
};
use crate::models::album::{track_views, Album, AlbumView, TrackInfo, TrackView};
use crate::models::artist::{artist_views, Artist, ArtistView};
use crate::models::library::text_of;
use crate::text::{copy_strings, views};
use vstd::prelude::*;
use vstd::string::*;

verus! {

/// The text of an optional string: the empty text where there is none.
pub open spec fn text_or_empty(value: Option<String>) -> Seq<char> {
    match value {
        Some(text) => text@,
        None => Seq::empty(),
    }
}

/// The texts of an optional list: the empty list where there is none.
pub open spec fn strings_or_empty(value: Option<Vec<String>>) -> Seq<Seq<char>> {
    match value {
        Some(list) => views(list@),
        None => Seq::empty(),
    }
}

/// The position of a track: the structured position where there is one that
/// is not empty, else the textual number, else the empty text.
pub open spec fn position_of(position: Option<TextOrNumber>, number: Option<TextOrNumber>) -> Seq<
    char,
> {
    if position is Some && text_or_number(position->0).len() > 0 {
        text_or_number(position->0)
    } else {
        match number {
            Some(n) => text_or_number(n),
            None => Seq::empty(),
        }
    }
}

/// The track that the catalog's track stands for. A missing length is 0.
pub open spec fn track_of_item(item: TrackItem) -> TrackView {
    TrackView {
        position: position_of(item.position, item.number),
        title: item.title@,
        length_ms: match item.length {
            Some(length) => length as int,
            None => 0,
        },
    }
}

/// The tracks of one medium, in order.
pub open spec fn medium_tracks(medium: Medium) -> Seq<TrackView> {
    medium.tracks@.map_values(|t: TrackItem| track_of_item(t))
}

/// The tracks of all media, one medium after the other.
pub open spec fn flattened_tracks(media: Seq<Medium>) -> Seq<TrackView>
    decreases media.len(),
{
    if media.len() == 0 {
        Seq::empty()
    } else {
        flattened_tracks(media.drop_last()) + medium_tracks(media.last())
    }
}

/// The name of the first credited artist: the empty text where nobody is
/// credited.
pub open spec fn first_artist_name(credits: Seq<ArtistCredit>) -> Seq<char> {
    if credits.len() == 0 {
        Seq::empty()
    } else {
        credits[0].artist.name@
    }
}

/// The label's name in one label entry, where the entry has a label and the
/// label a name.
pub open spec fn label_name(info: LabelInfo) -> Option<Seq<char>> {
    match info.label {
        Some(label) => text_of(label.name),
        None => None,
    }
}

/// The first label name among the label entries: the empty text where no
/// entry has one.
pub open spec fn first_label_name(infos: Seq<LabelInfo>) -> Seq<char>
    decreases infos.len(),
{
    if infos.len() == 0 {
        Seq::empty()
    } else {
        match label_name(infos[0]) {
            Some(name) => name,
            None => first_label_name(infos.drop_first()),
        }
    }
}

/// The album of a release that was fetched by its own id. The album goes by
/// the id of the release's group; the release's id is kept for the cover art.
pub open spec fn album_of_release(release: ReleaseItem) -> AlbumView {
    AlbumView {
        id: release.release_group.id@,
        release_id: release.id@,
        title: release.title@,
        artist: first_artist_name(release.artist_credit@),
        primary_type: text_or_empty(release.release_group.primary_type),
        secondary_types: strings_or_empty(release.release_group.secondary_types),
        status: text_or_empty(release.status),
        first_release_date: text_or_empty(release.release_group.first_release_date),
        disambiguation: release.disambiguation@,
        label: first_label_name(release.label_info@),
        country: text_or_empty(release.country),
        tracklist: flattened_tracks(release.media@),
    }
}

/// The album of a release group and the release chosen for it. Title, artist,
/// types, first release date and disambiguation are the group's; status,
/// label, country and tracks are the release's.
pub open spec fn album_of_group(group: ReleaseGroupDetail, release: ReleaseItem) -> AlbumView {
    AlbumView {
        id: group.id@,
        release_id: release.id@,
        title: group.title@,
        artist: first_artist_name(group.artist_credit@),
        primary_type: text_or_empty(group.primary_type),
        secondary_types: strings_or_empty(group.secondary_types),
        status: text_or_empty(release.status),
        first_release_date: text_or_empty(group.first_release_date),
        disambiguation: group.disambiguation@,
        label: first_label_name(release.label_info@),
        country: text_or_empty(release.country),
        tracklist: flattened_tracks(release.media@),
    }
}

/// The album of one entry of an artist's listing: no release, no artist and
/// no tracks are known yet.
pub open spec fn album_of_listing(group: ReleaseGroupItem) -> AlbumView {
    AlbumView {
        id: group.id@,
        release_id: Seq::empty(),
        title: group.title@,
        artist: Seq::empty(),
        primary_type: text_or_empty(group.primary_type),
        secondary_types: strings_or_empty(group.secondary_types),
        status: Seq::empty(),
        first_release_date: text_or_empty(group.first_release_date),
        disambiguation: group.disambiguation@,
        label: Seq::empty(),
        country: Seq::empty(),
        tracklist: Seq::empty(),
    }
}

/// The artist of one entry of a search result.
pub open spec fn artist_of_item(item: ArtistItem) -> ArtistView {
    ArtistView {
        id: item.id@,
        name: item.name@,
        disambiguation: item.disambiguation@,
        score: item.score as int,
    }
}

pub fn unwrap_text(value: &Option<String>) -> (r: String)
    ensures
        r@ == text_or_empty(*value),
{
    match value {
        Some(text) => text.clone(),
        None => String::new(),
    }
}

pub fn unwrap_strings(value: &Option<Vec<String>>) -> (r: Vec<String>)
    ensures
        views(r@) == strings_or_empty(*value),
{
    match value {
        Some(list) => copy_strings(list),
        None => {
            let r: Vec<String> = Vec::new();
            assert(views(r@) =~= Seq::empty());
            r
        },
    }
}

impl TrackInfo {
    /// The track that the catalog's track stands for.
    pub fn from_track_item(track: &TrackItem) -> (r: TrackInfo)
        ensures
            r@ == track_of_item(*track),
    {
        let structured = match &track.position {
            Some(value) => value.to_text(),
            None => String::new(),
        };
        let position = if !structured.as_str().is_empty() {
            structured
        } else {
            match &track.number {
                Some(value) => value.to_text(),
                None => String::new(),
            }
        };
        TrackInfo {
            position,
            title: track.title.clone(),
            length_ms: match track.length {
                Some(length) => length,
                None => 0,
            },
        }
    }
}

/// The tracks of all media of a release, one medium after the other.
pub fn flatten_tracks(media: &Vec<Medium>) -> (r: Vec<TrackInfo>)
    ensures
        track_views(r@) == flattened_tracks(media@),
{
    let mut out: Vec<TrackInfo> = Vec::new();
    let n: usize = media.len();
    let mut i: usize = 0;
    proof {
        assert(track_views(out@) =~= flattened_tracks(media@.take(0)));
    }
    while i < n
        invariant
            n == media@.len(),
            i <= n,
            track_views(out@) == flattened_tracks(media@.take(i as int)),
        decreases n - i,
    {
        let tracks = &media[i].tracks;
        let m: usize = tracks.len();
        let ghost before = track_views(out@);
        let mut j: usize = 0;
        while j < m
            invariant
                m == tracks@.len(),
                j <= m,
                out@.len() == before.len() + j,
                forall|k: int| 0 <= k < before.len() ==> out@[k]@ == before[k],
                forall|k: int| 0 <= k < j ==> out@[before.len() + k]@ == track_of_item(tracks@[k]),
            decreases m - j,
        {
            out.push(TrackInfo::from_track_item(&tracks[j]));
            j = j + 1;
        }
        proof {
            assert(track_views(out@) =~= before + medium_tracks(media@[i as int]));
            assert(media@.take(i + 1).drop_last() =~= media@.take(i as int));
            assert(media@.take(i + 1).last() == media@[i as int]);
        }
        i = i + 1;
    }
    proof {
        assert(media@.take(n as int) =~= media@);
    }
    out
}

/// The name of the first credited artist.
pub fn primary_artist(credits: &Vec<ArtistCredit>) -> (r: String)
    ensures
        r@ == first_artist_name(credits@),
{
    if credits.len() == 0 {
        String::new()
    } else {
        credits[0].artist.name.clone()
    }
}

/// The first label name among the label entries of a release.
pub fn primary_label(infos: &Vec<LabelInfo>) -> (r: String)
    ensures
        r@ == first_label_name(infos@),
{
    let n: usize = infos.len();
    let mut i: usize = 0;
    proof {
        assert(infos@.skip(0) =~= infos@);
    }
    while i < n
        invariant
            n == infos@.len(),
            i <= n,
            first_label_name(infos@) == first_label_name(infos@.skip(i as int)),
        decreases n - i,
    {
        proof {
            assert(infos@.skip(i as int)[0] == infos@[i as int]);
            assert(infos@.skip(i as int).drop_first() =~= infos@.skip(i + 1));
        }
        match &infos[i].label {
            Some(label) => {
                match &label.name {
                    Some(name) => {
                        return name.clone();
                    },
                    None => {},
                }
            },
            None => {},
        }
        i = i + 1;
    }
    String::new()
}

/// Builds the album of a release that was fetched by its own id.
pub fn build_album_from_release(release: &ReleaseItem) -> (r: Album)
    ensures
        r@ == album_of_release(*release),
{
    Album {
        id: release.release_group.id.clone(),
        release_id: release.id.clone(),
        title: release.title.clone(),
        artist: primary_artist(&release.artist_credit),
        primary_type: unwrap_text(&release.release_group.primary_type),
        secondary_types: unwrap_strings(&release.release_group.secondary_types),
        status: unwrap_text(&release.status),
        first_release_date: unwrap_text(&release.release_group.first_release_date),
        disambiguation: release.disambiguation.clone(),
        label: primary_label(&release.label_info),
        country: unwrap_text(&release.country),
        tracklist: flatten_tracks(&release.media),
    }
}

/// Builds the album of a release group and the release chosen for it.
pub fn build_album_from_group(group: &ReleaseGroupDetail, release: &ReleaseItem) -> (r: Album)
    ensures
        r@ == album_of_group(*group, *release),
{
    Album {
        id: group.id.clone(),
        release_id: release.id.clone(),
        title: group.title.clone(),
        artist: primary_artist(&group.artist_credit),
        primary_type: unwrap_text(&group.primary_type),
        secondary_types: unwrap_strings(&group.secondary_types),
        status: unwrap_text(&release.status),
        first_release_date: unwrap_text(&group.first_release_date),
        disambiguation: group.disambiguation.clone(),
        label: primary_label(&release.label_info),
        country: unwrap_text(&release.country),
        tracklist: flatten_tracks(&release.media),
    }
}

/// Builds the album of one entry of an artist's listing.
pub fn build_album_from_listing(group: &ReleaseGroupItem) -> (r: Album)
    ensures
        r@ == album_of_listing(*group),
{
    let r = Album {
        id: group.id.clone(),
        release_id: String::new(),
        title: group.title.clone(),
        artist: String::new(),
        primary_type: unwrap_text(&group.primary_type),
        secondary_types: unwrap_strings(&group.secondary_types),
        status: String::new(),
        first_release_date: unwrap_text(&group.first_release_date),
        disambiguation: group.disambiguation.clone(),
        label: String::new(),
        country: String::new(),
        tracklist: Vec::new(),
    };
    proof {
        assert(track_views(r.tracklist@) =~= Seq::empty());
    }
    r
}

/// The artists of a search result, in the order in which the catalog gave
/// them.
pub fn artists_of_items(items: &Vec<ArtistItem>) -> (r: Vec<Artist>)
    ensures
        artist_views(r@) == items@.map_values(|i: ArtistItem| artist_of_item(i)),
{
    let mut out: Vec<Artist> = Vec::new();
    let n: usize = items.len();
    let mut i: usize = 0;
    while i < n
        invariant
            n == items@.len(),
            i <= n,
            out@.len() == i,
            forall|k: int| 0 <= k < i ==> out@[k]@ == artist_of_item(items@[k]),
        decreases n - i,
    {
        let item = &items[i];
        out.push(
            Artist {
                id: item.id.clone(),
                name: item.name.clone(),
                disambiguation: item.disambiguation.clone(),
                score: item.score,
            },
        );
        i = i + 1;
    }
    proof {
        assert(artist_views(out@) =~= items@.map_values(|i: ArtistItem| artist_of_item(i)));
    }
    out
}

} // verus!
