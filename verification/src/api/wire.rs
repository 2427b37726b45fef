//! The shapes of the catalog's answers, as plain values. A field that the
//! catalog may leave out is an `Option`; the `Default` of each shape says what
//! stands for a shape that is missing altogether.
use crate::text::{render_signed, signed_decimal};
use vstd::prelude::*;
use vstd::string::*;

verus! {

/// A value that the catalog writes now as text and now as a number.
pub enum TextOrNumber {
    Text(String),
    Number(i64),
}

/// The text of a [`TextOrNumber`]: the text itself, or the number in decimal.
pub open spec fn text_or_number(value: TextOrNumber) -> Seq<char> {
    match value {
        TextOrNumber::Text(text) => text@,
        TextOrNumber::Number(number) => signed_decimal(number as int),
    }
}

impl TextOrNumber {
    pub fn into_string(self) -> (r: String)
        ensures
            r@ == text_or_number(self),
    {
        match self {
            TextOrNumber::Text(value) => value,
            TextOrNumber::Number(value) => render_signed(value),
        }
    }

    /// The text of the value, which stays where it is.
    pub fn to_text(&self) -> (r: String)
        ensures
            r@ == text_or_number(*self),
    {
        match self {
            TextOrNumber::Text(value) => value.clone(),
            TextOrNumber::Number(value) => render_signed(*value),
        }
    }
}

pub struct ArtistItem {
    pub id: String,
    pub name: String,
    pub disambiguation: String,
    pub score: i32,
}

impl Default for ArtistItem {
    fn default() -> (r: Self)
        ensures
            r.id@.len() == 0,
            r.name@.len() == 0,
            r.disambiguation@.len() == 0,
            r.score == 0,
    {
        ArtistItem {
            id: String::new(),
            name: String::new(),
            disambiguation: String::new(),
            score: 0,
        }
    }
}

pub struct ArtistSearchResponse {
    pub artists: Vec<ArtistItem>,
}

impl Default for ArtistSearchResponse {
    fn default() -> (r: Self)
        ensures
            r.artists@.len() == 0,
    {
        ArtistSearchResponse { artists: Vec::new() }
    }
}

pub struct ReleaseGroupItem {
    pub id: String,
    pub title: String,
    pub disambiguation: String,
    pub primary_type: Option<String>,
    pub secondary_types: Option<Vec<String>>,
    pub first_release_date: Option<String>,
}

impl Default for ReleaseGroupItem {
    fn default() -> (r: Self)
        ensures
            r.id@.len() == 0,
            r.title@.len() == 0,
            r.disambiguation@.len() == 0,
            r.primary_type is None,
            r.secondary_types matches Some(types) && types@.len() == 0,
            r.first_release_date is None,
    {
        ReleaseGroupItem {
            id: String::new(),
            title: String::new(),
            disambiguation: String::new(),
            primary_type: None,
            secondary_types: Some(Vec::new()),
            first_release_date: None,
        }
    }
}

pub struct ReleaseGroupResponse {
    pub release_groups: Vec<ReleaseGroupItem>,
}

impl Default for ReleaseGroupResponse {
    fn default() -> (r: Self)
        ensures
            r.release_groups@.len() == 0,
    {
        ReleaseGroupResponse { release_groups: Vec::new() }
    }
}

pub struct ArtistSubRecord {
    pub name: String,
}

impl Default for ArtistSubRecord {
    fn default() -> (r: Self)
        ensures
            r.name@.len() == 0,
    {
        ArtistSubRecord { name: String::new() }
    }
}

pub struct ArtistCredit {
    pub artist: ArtistSubRecord,
}

impl Default for ArtistCredit {
    fn default() -> (r: Self)
        ensures
            r.artist.name@.len() == 0,
    {
        ArtistCredit { artist: ArtistSubRecord::default() }
    }
}

pub struct ReleaseGroupDetail {
    pub id: String,
    pub title: String,
    pub disambiguation: String,
    pub primary_type: Option<String>,
    pub secondary_types: Option<Vec<String>>,
    pub first_release_date: Option<String>,
    pub artist_credit: Vec<ArtistCredit>,
}

impl Default for ReleaseGroupDetail {
    fn default() -> (r: Self)
        ensures
            r.id@.len() == 0,
            r.title@.len() == 0,
            r.disambiguation@.len() == 0,
            r.primary_type is None,
            r.secondary_types matches Some(types) && types@.len() == 0,
            r.first_release_date is None,
            r.artist_credit@.len() == 0,
    {
        ReleaseGroupDetail {
            id: String::new(),
            title: String::new(),
            disambiguation: String::new(),
            primary_type: None,
            secondary_types: Some(Vec::new()),
            first_release_date: None,
            artist_credit: Vec::new(),
        }
    }
}

/// The release group as a release carries it.
pub struct ReleaseGroup {
    pub id: String,
    pub primary_type: Option<String>,
    pub secondary_types: Option<Vec<String>>,
    pub first_release_date: Option<String>,
}

impl Default for ReleaseGroup {
    fn default() -> (r: Self)
        ensures
            r.id@.len() == 0,
            r.primary_type is None,
            r.secondary_types matches Some(types) && types@.len() == 0,
            r.first_release_date is None,
    {
        ReleaseGroup {
            id: String::new(),
            primary_type: None,
            secondary_types: Some(Vec::new()),
            first_release_date: None,
        }
    }
}

pub struct LabelRecord {
    pub name: Option<String>,
}

impl Default for LabelRecord {
    fn default() -> (r: Self)
        ensures
            r.name matches Some(name) && name@.len() == 0,
    {
        LabelRecord { name: Some(String::new()) }
    }
}

pub struct LabelInfo {
    pub label: Option<LabelRecord>,
}

impl Default for LabelInfo {
    fn default() -> (r: Self)
        ensures
            r.label is None,
    {
        LabelInfo { label: None }
    }
}

pub struct TrackItem {
    pub id: String,
    pub position: Option<TextOrNumber>,
    pub number: Option<TextOrNumber>,
    pub title: String,
    pub length: Option<i64>,
}

impl Default for TrackItem {
    fn default() -> (r: Self)
        ensures
            r.id@.len() == 0,
            r.position is None,
            r.number is None,
            r.title@.len() == 0,
            r.length == Some(0i64),
    {
        TrackItem {
            id: String::new(),
            position: None,
            number: None,
            title: String::new(),
            length: Some(0),
        }
    }
}

pub struct Medium {
    pub track_count: i32,
    pub tracks: Vec<TrackItem>,
}

impl Default for Medium {
    fn default() -> (r: Self)
        ensures
            r.track_count == 0,
            r.tracks@.len() == 0,
    {
        Medium { track_count: 0, tracks: Vec::new() }
    }
}

pub struct ReleaseItem {
    pub id: String,
    pub title: String,
    pub status: Option<String>,
    pub country: Option<String>,
    pub date: Option<String>,
    pub disambiguation: String,
    pub release_group: ReleaseGroup,
    pub artist_credit: Vec<ArtistCredit>,
    pub label_info: Vec<LabelInfo>,
    pub media: Vec<Medium>,
}

impl Default for ReleaseItem {
    fn default() -> (r: Self)
        ensures
            r.id@.len() == 0,
            r.title@.len() == 0,
            r.status is None,
            r.country is None,
            r.date is None,
            r.disambiguation@.len() == 0,
            r.release_group.id@.len() == 0,
            r.release_group.primary_type is None,
            r.release_group.secondary_types matches Some(types) && types@.len() == 0,
            r.release_group.first_release_date is None,
            r.artist_credit@.len() == 0,
            r.label_info@.len() == 0,
            r.media@.len() == 0,
    {
        ReleaseItem {
            id: String::new(),
            title: String::new(),
            status: None,
            country: None,
            date: None,
            disambiguation: String::new(),
            release_group: ReleaseGroup::default(),
            artist_credit: Vec::new(),
            label_info: Vec::new(),
            media: Vec::new(),
        }
    }
}

pub struct ReleaseSearchResponse {
    pub releases: Vec<ReleaseItem>,
}

impl Default for ReleaseSearchResponse {
    fn default() -> (r: Self)
        ensures
            r.releases@.len() == 0,
    {
        ReleaseSearchResponse { releases: Vec::new() }
    }
}

} // verus!
