//! The listing of an artist's albums: fetched page by page, gathered, and put
//! in order before anybody sees it.
use crate::api::assemble::{album_of_listing, build_album_from_listing};
use crate::api::musicbrainz::{settle, settled, ErrorView, FetchOutcome, MusicBrainzError};
use crate::api::request::{
    release_group_page, release_group_page_request, CatalogRequest, PAGE_SIZE,
};
use crate::api::wire::{ReleaseGroupItem, ReleaseGroupResponse};
use crate::dates::{parse_date, parsed_date, CalendarDate};
use crate::models::album::{album_views, Album, AlbumView};
use crate::sorting::{is_stable_arrangement, is_total, ranking, stable_sort, Ranked};
use crate::text::{
    lemma_lex_asymmetric, lemma_lex_connected, lemma_lex_transitive, lex_le, lex_lt, str_lt, utf8,
};
use vstd::prelude::*;
use vstd::string::*;

verus! {

/// Tells whether the date `a` ranks before the date `b`: the earlier day
/// first, and a date that could be read before one that could not.
pub open spec fn date_ranks_before(a: Option<CalendarDate>, b: Option<CalendarDate>) -> bool {
    match (a, b) {
        (Some(x), Some(y)) => x.before(y),
        (Some(_), None) => true,
        (None, _) => false,
    }
}

/// The order of a listing: by first release date, where a date that cannot be
/// read comes after all that can; on the same day by the text of the date;
/// on the same text by title. Texts are ordered by their bytes.
pub open spec fn album_precedes(a: AlbumView, b: AlbumView) -> bool {
    let date_a = parsed_date(a.first_release_date);
    let date_b = parsed_date(b.first_release_date);
    let raw_a = utf8(a.first_release_date);
    let raw_b = utf8(b.first_release_date);
    date_ranks_before(date_a, date_b) || (!date_ranks_before(date_b, date_a) && (lex_lt(
        raw_a,
        raw_b,
    ) || (!lex_lt(raw_b, raw_a) && lex_le(utf8(a.title), utf8(b.title)))))
}

/// The order of a listing as a relation.
pub open spec fn listing_order() -> spec_fn(AlbumView, AlbumView) -> bool {
    |a: AlbumView, b: AlbumView| album_precedes(a, b)
}

/// The order of a listing is total: of two albums one may stand before the
/// other, so that a listing has one order and no other.
pub proof fn lemma_listing_order_total()
    ensures
        is_total(listing_order()),
{
    assert forall|a: AlbumView, b: AlbumView|
        #[trigger] listing_order()(a, b) || #[trigger] listing_order()(b, a) by {
        lemma_lex_asymmetric(utf8(a.first_release_date), utf8(b.first_release_date));
        lemma_lex_asymmetric(utf8(a.title), utf8(b.title));
    }
}

/// Tells whether `list` holds the albums `gathered` in the listing's order,
/// those of equal rank as they stood in `gathered`.
pub open spec fn is_listing_of(gathered: Seq<AlbumView>, list: Seq<AlbumView>) -> bool {
    exists|origin: Seq<int>| #[trigger]
        is_stable_arrangement(gathered, list, origin, listing_order())
}

fn date_before(a: &Option<CalendarDate>, b: &Option<CalendarDate>) -> (r: bool)
    ensures
        r == date_ranks_before(*a, *b),
{
    match (a, b) {
        (Some(x), Some(y)) => x.is_before(y),
        (Some(_), None) => true,
        (None, _) => false,
    }
}

impl Ranked for Album {
    open spec fn precedes(&self, other: &Self) -> bool {
        album_precedes(self@, other@)
    }

    fn may_precede(&self, other: &Self) -> (r: bool) {
        let mine = parse_date(self.first_release_date.as_str());
        let theirs = parse_date(other.first_release_date.as_str());
        if date_before(&mine, &theirs) {
            true
        } else if date_before(&theirs, &mine) {
            false
        } else if str_lt(self.first_release_date.as_str(), other.first_release_date.as_str()) {
            true
        } else if str_lt(other.first_release_date.as_str(), self.first_release_date.as_str()) {
            false
        } else {
            !str_lt(other.title.as_str(), self.title.as_str())
        }
    }

    proof fn lemma_total(a: &Self, b: &Self) {
        lemma_lex_asymmetric(utf8(a@.first_release_date), utf8(b@.first_release_date));
        lemma_lex_asymmetric(utf8(a@.title), utf8(b@.title));
    }

    proof fn lemma_transitive(a: &Self, b: &Self, c: &Self) {
        let (ra, rb, rc) = (
            utf8(a@.first_release_date),
            utf8(b@.first_release_date),
            utf8(c@.first_release_date),
        );
        let (ta, tb, tc) = (utf8(a@.title), utf8(b@.title), utf8(c@.title));
        lemma_lex_connected(ra, rb);
        lemma_lex_connected(rb, rc);
        lemma_lex_connected(ra, rc);
        lemma_lex_asymmetric(ra, rb);
        lemma_lex_asymmetric(rb, rc);
        lemma_lex_asymmetric(ra, rc);
        if lex_lt(ra, rb) && lex_lt(rb, rc) {
            lemma_lex_transitive(ra, rb, rc);
        }
        if lex_lt(rc, ra) && lex_lt(ra, rb) {
            lemma_lex_transitive(rc, ra, rb);
        }
        if lex_lt(rb, rc) && lex_lt(rc, ra) {
            lemma_lex_transitive(rb, rc, ra);
        }
        if lex_le(ta, tb) && lex_le(tb, tc) {
            crate::text::lemma_lex_le_transitive(ta, tb, tc);
        }
    }
}

/// A listing under way: the artist whose albums are listed, and the albums
/// gathered so far. The next page starts behind the albums gathered.
pub struct AlbumListing {
    pub artist_id: String,
    pub albums: Vec<Album>,
}

/// What follows one page of a listing.
pub enum ListingStep {
    /// The page was full: another page has to be fetched.
    NextPage(AlbumListing),
    /// The listing is over, with the albums in order or an error.
    Finished(Result<Vec<Album>, MusicBrainzError>),
}

/// The albums of one page, in the order of the page.
pub open spec fn page_albums(groups: Seq<ReleaseGroupItem>) -> Seq<AlbumView> {
    groups.map_values(|g: ReleaseGroupItem| album_of_listing(g))
}

/// Tells whether `step` is what follows the listing `listing` when the answer
/// `outcome` to its next request has come.
pub open spec fn listing_advanced(
    listing: AlbumListing,
    outcome: FetchOutcome<ReleaseGroupResponse>,
    step: ListingStep,
) -> bool {
    match settled(outcome) {
        Err(error) => step matches ListingStep::Finished(Err(e)) && e@ == error,
        Ok(body) => {
            let gathered = album_views(listing.albums@) + page_albums(body.release_groups@);
            if body.release_groups@.len() >= PAGE_SIZE {
                step matches ListingStep::NextPage(next) && next.artist_id@ == listing.artist_id@
                    && album_views(next.albums@) == gathered
            } else if gathered.len() == 0 {
                step matches ListingStep::Finished(Err(e)) && e@ == ErrorView::Empty
            } else {
                step matches ListingStep::Finished(Ok(list)) && is_listing_of(
                    gathered,
                    album_views(list@),
                )
            }
        },
    }
}

impl AlbumListing {
    /// A listing of which no page was fetched yet.
    pub fn begin(artist_id: &str) -> (r: AlbumListing)
        ensures
            r.artist_id@ == artist_id@,
            r.albums@.len() == 0,
    {
        AlbumListing { artist_id: String::from_str(artist_id), albums: Vec::new() }
    }

    /// The request for the next page: it asks for the entries from the number
    /// of albums gathered so far.
    pub fn request(&self) -> (r: CatalogRequest)
        ensures
            r@ == release_group_page(self.artist_id@, self.albums@.len()),
    {
        release_group_page_request(self.artist_id.as_str(), self.albums.len())
    }

    /// Takes in the answer to the request for the next page.
    ///
    /// An error ends the listing with that error. Otherwise the page's albums
    /// are added behind those gathered. After a page with as many entries as
    /// were asked for, another page follows. A shorter page, and an empty one,
    /// ends the listing: with an empty result where no album was gathered at
    /// all, else with all albums in the listing's order, those of equal rank
    /// in the order in which the catalog gave them.
    pub fn advance(self, outcome: FetchOutcome<ReleaseGroupResponse>) -> (r: ListingStep)
        ensures
            listing_advanced(self, outcome, r),
    {
        let body = match settle(outcome) {
            Ok(body) => body,
            Err(error) => {
                return ListingStep::Finished(Err(error));
            },
        };
        let AlbumListing { artist_id, albums } = self;
        let mut albums = albums;
        let ghost start = albums@;
        let ghost gathered = album_views(start) + page_albums(body.release_groups@);
        let n: usize = body.release_groups.len();
        let mut i: usize = 0;
        while i < n
            invariant
                n == body.release_groups@.len(),
                i <= n,
                albums@.len() == start.len() + i,
                forall|k: int| 0 <= k < start.len() ==> albums@[k] == start[k],
                forall|k: int|
                    0 <= k < i ==> albums@[start.len() + k]@ == album_of_listing(
                        body.release_groups@[k],
                    ),
            decreases n - i,
        {
            albums.push(build_album_from_listing(&body.release_groups[i]));
            i = i + 1;
        }
        proof {
            assert(album_views(albums@) =~= gathered);
            assert(gathered.len() == albums@.len());
        }
        if n >= PAGE_SIZE {
            return ListingStep::NextPage(AlbumListing { artist_id, albums });
        }
        ListingStep::Finished(finish_listing(albums))
    }
}

/// Ends a listing: an empty result where no album was gathered, else the
/// albums in the listing's order, those of equal rank as they stood.
pub fn finish_listing(albums: Vec<Album>) -> (r: Result<Vec<Album>, MusicBrainzError>)
    ensures
        albums@.len() == 0 ==> (r matches Err(e) && e@ == ErrorView::Empty),
        albums@.len() > 0 ==> (r matches Ok(list) && is_listing_of(
            album_views(albums@),
            album_views(list@),
        )),
{
    if albums.len() == 0 {
        return Err(MusicBrainzError::Empty);
    }
    let mut sorted = albums;
    stable_sort(&mut sorted);
    proof {
        let origin = choose|origin: Seq<int>|
            is_stable_arrangement(albums@, sorted@, origin, ranking::<Album>());
        assert(is_stable_arrangement(
            album_views(albums@),
            album_views(sorted@),
            origin,
            listing_order(),
        ));
        assert(is_listing_of(album_views(albums@), album_views(sorted@)));
    }
    Ok(sorted)
}

} // verus!
