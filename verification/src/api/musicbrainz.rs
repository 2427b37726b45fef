//! The catalog client's rules: what each kind of answer means for the caller.
use crate::api::assemble::{
    album_of_group, album_of_release, artist_of_item, artists_of_items, build_album_from_group,
    build_album_from_release, text_or_empty, unwrap_text,
};
use crate::api::listing::{AlbumListing, ListingStep};
use crate::api::request::{
    catalog_headers, pair_views, release_group_detail, release_group_request, releases_of_group,
    releases_of_group_request, request_url, url_of, CatalogRequest,
};
use crate::api::select::{choice, effective_dates, select_release};
use crate::api::wire::{
    ArtistItem, ArtistSearchResponse, ReleaseGroupDetail, ReleaseGroupResponse, ReleaseItem,
    ReleaseSearchResponse,
};
use crate::config::AppConfig;
use crate::limiter::{permitted_at, stamp_of, wait_owed, RateLimiter, CATALOG_INTERVAL_MS};
use crate::models::album::{Album, AlbumView};
use crate::models::artist::{artist_views, Artist, ArtistView};
use crate::text::{decimal, render_decimal};
use vstd::prelude::*;
use vstd::string::*;

verus! {

/// Why a call to the catalog gave no result.
#[derive(Debug, PartialEq)]
pub enum MusicBrainzError {
    /// The request got no answer: the connection failed or timed out.
    Network(String),
    /// The answer did not have the expected shape.
    Parse(String),
    /// The answer was well formed and held nothing.
    Empty,
    /// The catalog answered with a status that is no success.
    Status(u16),
}

/// What a [`MusicBrainzError`] holds, as plain values.
pub enum ErrorView {
    Network(Seq<char>),
    Parse(Seq<char>),
    Empty,
    Status(u16),
}

impl View for MusicBrainzError {
    type V = ErrorView;

    open spec fn view(&self) -> ErrorView {
        match self {
            MusicBrainzError::Network(reason) => ErrorView::Network(reason@),
            MusicBrainzError::Parse(reason) => ErrorView::Parse(reason@),
            MusicBrainzError::Empty => ErrorView::Empty,
            MusicBrainzError::Status(status) => ErrorView::Status(*status),
        }
    }
}

/// The sentence that reports an error.
pub open spec fn error_message(error: ErrorView) -> Seq<char> {
    match error {
        ErrorView::Network(reason) => "network error: "@ + reason,
        ErrorView::Parse(reason) => "failed to parse response: "@ + reason,
        ErrorView::Empty => "no results returned"@,
        ErrorView::Status(status) => "unexpected status: "@ + decimal(status as nat),
    }
}

impl Clone for MusicBrainzError {
    fn clone(&self) -> (r: Self)
        ensures
            r@ == self@,
    {
        match self {
            MusicBrainzError::Network(reason) => MusicBrainzError::Network(reason.clone()),
            MusicBrainzError::Parse(reason) => MusicBrainzError::Parse(reason.clone()),
            MusicBrainzError::Empty => MusicBrainzError::Empty,
            MusicBrainzError::Status(status) => MusicBrainzError::Status(*status),
        }
    }
}

impl MusicBrainzError {
    /// The sentence that reports this error.
    pub fn message(&self) -> (r: String)
        ensures
            r@ == error_message(self@),
    {
        match self {
            MusicBrainzError::Network(reason) => {
                let mut out = String::from_str("network error: ");
                out.append(reason.as_str());
                out
            },
            MusicBrainzError::Parse(reason) => {
                let mut out = String::from_str("failed to parse response: ");
                out.append(reason.as_str());
                out
            },
            MusicBrainzError::Empty => String::from_str("no results returned"),
            MusicBrainzError::Status(status) => {
                let mut out = String::from_str("unexpected status: ");
                let digits = render_decimal(*status as u64);
                out.append(digits.as_str());
                out
            },
        }
    }
}

/// How one request ended.
pub enum FetchOutcome<T> {
    /// No answer came: the reason is the transport's.
    Transport(String),
    /// An answer came. `body` is the answer read into its shape, or the reason
    /// why it could not be read; it counts only where `status` is a success.
    Answer { status: u16, body: Result<T, String> },
}

/// The statuses that count as success.
pub open spec fn is_success_status(status: u16) -> bool {
    200 <= status <= 299
}

/// Tells whether a status counts as success.
pub fn is_success(status: u16) -> (r: bool)
    ensures
        r == is_success_status(status),
{
    200 <= status && status <= 299
}

/// What a request's end means: a transport failure is a network error, a
/// status that is no success is a status error whatever the body holds, an
/// unreadable body is a parse error, and a body that was read is the result.
pub open spec fn settled<T>(outcome: FetchOutcome<T>) -> Result<T, ErrorView> {
    match outcome {
        FetchOutcome::Transport(reason) => Err(ErrorView::Network(reason@)),
        FetchOutcome::Answer { status, body } => if !is_success_status(status) {
            Err(ErrorView::Status(status))
        } else {
            match body {
                Ok(value) => Ok(value),
                Err(reason) => Err(ErrorView::Parse(reason@)),
            }
        },
    }
}

/// Reads the end of a request as a body or an error.
pub fn settle<T>(outcome: FetchOutcome<T>) -> (r: Result<T, MusicBrainzError>)
    ensures
        match settled(outcome) {
            Ok(value) => r == Ok::<T, MusicBrainzError>(value),
            Err(error) => r matches Err(e) && e@ == error,
        },
{
    match outcome {
        FetchOutcome::Transport(reason) => Err(MusicBrainzError::Network(reason)),
        FetchOutcome::Answer { status, body } => {
            if !is_success(status) {
                Err(MusicBrainzError::Status(status))
            } else {
                match body {
                    Ok(value) => Ok(value),
                    Err(reason) => Err(MusicBrainzError::Parse(reason)),
                }
            }
        },
    }
}

/// The artists that a search found, as the catalog ordered them; a search
/// that found nobody is an empty result.
pub open spec fn artists_found(outcome: FetchOutcome<ArtistSearchResponse>) -> Result<
    Seq<ArtistView>,
    ErrorView,
> {
    match settled(outcome) {
        Ok(body) => if body.artists@.len() == 0 {
            Err(ErrorView::Empty)
        } else {
            Ok(body.artists@.map_values(|i: ArtistItem| artist_of_item(i)))
        },
        Err(error) => Err(error),
    }
}

/// The album of a release group, given the group and the answer that lists
/// its releases: the group joined with the canonical release, which is chosen
/// by effective date with the group's first release date as the fallback. A
/// group without releases is an empty result.
pub open spec fn album_details(
    group: ReleaseGroupDetail,
    outcome: FetchOutcome<ReleaseSearchResponse>,
) -> Result<AlbumView, ErrorView> {
    match settled(outcome) {
        Ok(body) => if body.releases@.len() == 0 {
            Err(ErrorView::Empty)
        } else {
            Ok(
                album_of_group(
                    group,
                    body.releases@[choice(
                        effective_dates(body.releases@, text_or_empty(group.first_release_date)),
                    )],
                ),
            )
        },
        Err(error) => Err(error),
    }
}

/// The number of times that the fetch of one release is tried.
pub const MAX_ATTEMPTS: u32 = 3;

/// Milliseconds of pause per attempt made so far, before the next one.
pub const BACKOFF_STEP_MS: u64 = 1000;

/// What follows one attempt to fetch a release.
#[derive(Debug, PartialEq)]
pub enum FetchStep {
    /// The fetch is over, with an album or an error.
    Finished(Result<Album, MusicBrainzError>),
    /// The attempt failed in transit: wait, then make the attempt `attempt`.
    RetryAfter { wait_ms: u64, attempt: u32 },
}

/// What a [`FetchStep`] holds, as plain values.
pub enum FetchStepView {
    Finished(Result<AlbumView, ErrorView>),
    RetryAfter { wait_ms: u64, attempt: u32 },
}

impl View for FetchStep {
    type V = FetchStepView;

    open spec fn view(&self) -> FetchStepView {
        match self {
            FetchStep::Finished(Ok(album)) => FetchStepView::Finished(Ok(album@)),
            FetchStep::Finished(Err(error)) => FetchStepView::Finished(Err(error@)),
            FetchStep::RetryAfter { wait_ms, attempt } => FetchStepView::RetryAfter {
                wait_ms: *wait_ms,
                attempt: *attempt,
            },
        }
    }
}

/// What follows the attempt `attempt` (counted from 1) to fetch a release. A
/// failure in transit is tried again, after a pause of one second for each
/// attempt made, until three attempts were made; the third failure is the
/// result. Every answer ends the fetch at once: a status that is no success
/// and an unreadable body are errors and are not tried again.
pub open spec fn release_fetch_step(
    attempt: u32,
    outcome: FetchOutcome<ReleaseItem>,
) -> FetchStepView {
    match settled(outcome) {
        Ok(release) => FetchStepView::Finished(Ok(album_of_release(release))),
        Err(ErrorView::Network(reason)) => if attempt < MAX_ATTEMPTS {
            FetchStepView::RetryAfter {
                wait_ms: (BACKOFF_STEP_MS * attempt) as u64,
                attempt: (attempt + 1) as u32,
            }
        } else {
            FetchStepView::Finished(Err(ErrorView::Network(reason)))
        },
        Err(error) => FetchStepView::Finished(Err(error)),
    }
}

/// A request that has taken its turn: the URL to ask, and the wait before it
/// may be sent.
#[derive(Debug, PartialEq)]
pub struct PacedRequest {
    pub url: String,
    pub wait_ms: u64,
}

/// The first stage of the fetch of a release group's album: the group itself
/// has to be asked for.
pub struct DetailsFetch {
    release_group_id: String,
}

/// The second stage of the fetch of a release group's album: the group is
/// known, and its releases have to be asked for. There is no way to this
/// stage but through an answer to the first request that held the group.
pub struct ReleasesFetch {
    release_group_id: String,
    group: ReleaseGroupDetail,
}

impl DetailsFetch {
    /// The id of the release group whose album is fetched.
    pub closed spec fn id(&self) -> Seq<char> {
        self.release_group_id@
    }

    /// The fetch of the album of a release group, of which nothing was asked
    /// yet.
    pub fn begin(release_group_id: &str) -> (r: DetailsFetch)
        ensures
            r.id() == release_group_id@,
    {
        DetailsFetch { release_group_id: String::from_str(release_group_id) }
    }

    /// The first request: the release group with its artist credits.
    pub fn request(&self) -> (r: CatalogRequest)
        ensures
            r@ == release_group_detail(self.id()),
    {
        release_group_request(self.release_group_id.as_str())
    }

    /// Takes in the answer to the first request. An answer that holds the
    /// group leads to the second stage; every other end of the request ends
    /// the fetch with its error, and no second request is made.
    pub fn advance(self, outcome: FetchOutcome<ReleaseGroupDetail>) -> (r: Result<
        ReleasesFetch,
        MusicBrainzError,
    >)
        ensures
            match settled(outcome) {
                Ok(group) => r matches Ok(next) && next.id() == self.id() && next.group()
                    == group,
                Err(error) => r matches Err(e) && e@ == error,
            },
    {
        match settle(outcome) {
            Ok(group) => Ok(ReleasesFetch { release_group_id: self.release_group_id, group }),
            Err(error) => Err(error),
        }
    }
}

impl ReleasesFetch {
    /// The id of the release group whose album is fetched.
    pub closed spec fn id(&self) -> Seq<char> {
        self.release_group_id@
    }

    /// The release group, as the answer to the first request gave it.
    pub closed spec fn group(&self) -> ReleaseGroupDetail {
        self.group
    }

    /// The second request: the official releases of the group, one page of
    /// them.
    pub fn request(&self) -> (r: CatalogRequest)
        ensures
            r@ == releases_of_group(self.id()),
    {
        releases_of_group_request(self.release_group_id.as_str())
    }

    /// Takes in the answer to the second request and ends the fetch: with
    /// the group's album, built from the canonical release, or with an error.
    /// Nothing is asked again.
    pub fn finish(self, outcome: FetchOutcome<ReleaseSearchResponse>) -> (r: Result<
        Album,
        MusicBrainzError,
    >)
        ensures
            match album_details(self.group(), outcome) {
                Ok(album) => r matches Ok(a) && a@ == album,
                Err(error) => r matches Err(e) && e@ == error,
            },
    {
        MusicBrainzClient::fetch_album_details(&self.group, outcome)
    }
}

/// The catalog client, apart from the sending: it knows the headers of its
/// requests, paces them, and reads what comes back.
pub struct MusicBrainzClient {
    base_headers: Vec<(String, String)>,
    throttle: RateLimiter,
}

impl MusicBrainzClient {
    /// The headers that go with every request.
    pub closed spec fn headers(&self) -> Seq<(Seq<char>, Seq<char>)> {
        pair_views(self.base_headers@)
    }

    /// The limiter that paces the requests.
    pub closed spec fn limiter(&self) -> RateLimiter {
        self.throttle
    }

    /// The client of a run: it names itself as the configuration says, and
    /// has sent nothing yet.
    pub fn new(config: &AppConfig) -> (r: MusicBrainzClient)
        ensures
            r.headers() == seq![
                ("User-Agent"@, config@.user_agent),
                ("Accept"@, "application/json"@),
                ("X-Client-Id"@, config@.client_id),
            ],
            r.limiter().interval() == CATALOG_INTERVAL_MS,
            r.limiter().last() is None,
    {
        MusicBrainzClient {
            base_headers: catalog_headers(config),
            throttle: RateLimiter::for_catalog(),
        }
    }

    /// The headers that go with every request.
    pub fn base_headers(&self) -> (r: &Vec<(String, String)>)
        ensures
            pair_views(r@) == self.headers(),
    {
        &self.base_headers
    }

    /// Tells whether the clock reading `now_ms` leaves room for the stamp of
    /// the next request.
    pub fn can_await_throttle(&self, now_ms: u64) -> (r: bool)
        ensures
            r == (now_ms + self.limiter().interval() <= u64::MAX),
    {
        self.throttle.can_acquire(now_ms)
    }

    /// Takes the turn of the next request: tells how long to wait before it
    /// is sent, and stamps the end of that wait. Every request to the catalog
    /// takes its turn here first. Wait and stamp are settled in this one call:
    /// who takes the next turn finds the new stamp, and is stamped at least
    /// one interval behind it.
    pub fn await_throttle(&mut self, now_ms: u64) -> (wait_ms: u64)
        requires
            now_ms + old(self).limiter().interval() <= u64::MAX,
        ensures
            wait_ms == wait_owed(
                old(self).limiter().interval() as int,
                stamp_of(old(self).limiter().last()),
                now_ms as int,
            ),
            final(self).headers() == old(self).headers(),
            final(self).limiter().interval() == old(self).limiter().interval(),
            stamp_of(final(self).limiter().last()) == Some(
                permitted_at(
                    old(self).limiter().interval() as int,
                    stamp_of(old(self).limiter().last()),
                    now_ms as int,
                ),
            ),
            old(self).limiter().last() is Some && old(self).limiter().last()->0 <= now_ms
                ==> final(self).limiter().last()->0 >= old(self).limiter().last()->0
                + old(self).limiter().interval(),
    {
        self.throttle.acquire(now_ms)
    }

    /// Makes a request ready to be sent at the clock reading `now_ms`: writes
    /// it out as a URL and takes its turn at the limiter. A request that
    /// cannot be written out takes no turn. There is no other way to the URL
    /// of a request that also paces it, so that every request that is sent has
    /// taken its turn, once.
    pub fn plan_request(&mut self, request: &CatalogRequest, now_ms: u64) -> (r: Result<
        PacedRequest,
        MusicBrainzError,
    >)
        requires
            now_ms + old(self).limiter().interval() <= u64::MAX,
        ensures
            final(self).headers() == old(self).headers(),
            final(self).limiter().interval() == old(self).limiter().interval(),
            match url_of(request@) {
                Ok(url) => {
                    &&& r matches Ok(paced)
                    &&& paced.url@ == url
                    &&& paced.wait_ms == wait_owed(
                        old(self).limiter().interval() as int,
                        stamp_of(old(self).limiter().last()),
                        now_ms as int,
                    )
                    &&& stamp_of(final(self).limiter().last()) == Some(
                        permitted_at(
                            old(self).limiter().interval() as int,
                            stamp_of(old(self).limiter().last()),
                            now_ms as int,
                        ),
                    )
                },
                Err(error) => {
                    &&& r matches Err(e)
                    &&& e@ == error
                    &&& final(self).limiter().last() == old(self).limiter().last()
                },
            },
    {
        match request_url(request) {
            Ok(url) => {
                let wait_ms = self.await_throttle(now_ms);
                Ok(PacedRequest { url, wait_ms })
            },
            Err(error) => Err(error),
        }
    }

    /// Reads the answer to a search for artists.
    pub fn search_artists(outcome: FetchOutcome<ArtistSearchResponse>) -> (r: Result<
        Vec<Artist>,
        MusicBrainzError,
    >)
        ensures
            match artists_found(outcome) {
                Ok(artists) => r matches Ok(list) && artist_views(list@) == artists,
                Err(error) => r matches Err(e) && e@ == error,
            },
    {
        match settle(outcome) {
            Ok(body) => {
                let artists = artists_of_items(&body.artists);
                proof {
                    assert(artist_views(artists@).len() == artists@.len());
                    assert(artist_views(artists@).len() == body.artists@.len());
                }
                if artists.len() == 0 {
                    Err(MusicBrainzError::Empty)
                } else {
                    Ok(artists)
                }
            },
            Err(error) => Err(error),
        }
    }

    /// Takes in the answer to the request for the next page of an artist's
    /// albums: see [`AlbumListing::advance`].
    pub fn albums_for_artist(
        listing: AlbumListing,
        outcome: FetchOutcome<ReleaseGroupResponse>,
    ) -> (r: ListingStep)
        ensures
            crate::api::listing::listing_advanced(listing, outcome, r),
    {
        listing.advance(outcome)
    }

    /// Reads the answer that lists the releases of a release group and builds
    /// the group's album from the canonical release.
    pub fn fetch_album_details(
        group: &ReleaseGroupDetail,
        outcome: FetchOutcome<ReleaseSearchResponse>,
    ) -> (r: Result<Album, MusicBrainzError>)
        ensures
            match album_details(*group, outcome) {
                Ok(album) => r matches Ok(a) && a@ == album,
                Err(error) => r matches Err(e) && e@ == error,
            },
    {
        match settle(outcome) {
            Ok(body) => {
                let fallback = unwrap_text(&group.first_release_date);
                match select_release(&body.releases, fallback.as_str()) {
                    Some(index) => Ok(build_album_from_group(group, &body.releases[index])),
                    None => Err(MusicBrainzError::Empty),
                }
            },
            Err(error) => Err(error),
        }
    }

    /// Decides what follows one attempt to fetch a release by its id.
    pub fn fetch_album_by_release_id(
        attempt: u32,
        outcome: FetchOutcome<ReleaseItem>,
    ) -> (r: FetchStep)
        ensures
            r@ == release_fetch_step(attempt, outcome),
    {
        match settle(outcome) {
            Ok(release) => FetchStep::Finished(Ok(build_album_from_release(&release))),
            Err(MusicBrainzError::Network(reason)) => {
                if attempt < MAX_ATTEMPTS {
                    FetchStep::RetryAfter {
                        wait_ms: BACKOFF_STEP_MS * (attempt as u64),
                        attempt: attempt + 1,
                    }
                } else {
                    FetchStep::Finished(Err(MusicBrainzError::Network(reason)))
                }
            },
            Err(error) => FetchStep::Finished(Err(error)),
        }
    }
}

} // verus!
