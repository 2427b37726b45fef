//! The requests that the catalog client sends: where each one goes and what
//! its query says.
use crate::api::musicbrainz::MusicBrainzError;
use crate::config::AppConfig;
use crate::text::{decimal, render_decimal, utf8};
use vstd::prelude::*;
use vstd::string::*;

verus! {

/// The number of entries asked for in one page of a listing.
pub const PAGE_SIZE: usize = 100;

/// The most bytes that the address of a request may take: one MiB.
///
/// The url crate counts the length of a URL in 32 bits and gives up where a
/// URL outgrows that count. A URL can be longer than the request it is made
/// from: a byte of path or query can take three bytes of the URL, and the
/// host of the address can grow many times over where it is brought into its
/// ASCII form. The two limits are set so low that the URL stays far below the
/// count even if the address grew a thousand times.
pub const MAX_ADDRESS_BYTES: usize = 1_048_576;

/// The most bytes that one request may take, address and query together: 16
/// MiB.
pub const MAX_REQUEST_BYTES: usize = 16_777_216;

/// Seconds after which a request that got no full answer is given up.
pub const REQUEST_TIMEOUT_SECS: u64 = 30;

/// Seconds after which a connection that was not made is given up.
pub const CONNECT_TIMEOUT_SECS: u64 = 10;

/// One request to the catalog: an address and the pairs of its query.
#[derive(Debug, PartialEq)]
pub struct CatalogRequest {
    pub base: String,
    pub params: Vec<(String, String)>,
}

/// What a [`CatalogRequest`] holds, as plain values.
pub struct RequestView {
    pub base: Seq<char>,
    pub params: Seq<(Seq<char>, Seq<char>)>,
}

/// The views of a list of pairs of texts.
pub open spec fn pair_views(pairs: Seq<(String, String)>) -> Seq<(Seq<char>, Seq<char>)> {
    pairs.map_values(|p: (String, String)| (p.0@, p.1@))
}

impl View for CatalogRequest {
    type V = RequestView;

    open spec fn view(&self) -> RequestView {
        RequestView { base: self.base@, params: pair_views(self.params@) }
    }
}

/// The search for artists by name: at most 25 matches.
pub open spec fn artist_search(query: Seq<char>) -> RequestView {
    RequestView {
        base: "https://musicbrainz.org/ws/2/artist"@,
        params: seq![("query"@, query), ("fmt"@, "json"@), ("limit"@, "25"@)],
    }
}

/// One page of the albums and EPs of an artist, from `offset` on.
pub open spec fn release_group_page(artist_id: Seq<char>, offset: nat) -> RequestView {
    RequestView {
        base: "https://musicbrainz.org/ws/2/release-group"@,
        params: seq![
            ("artist"@, artist_id),
            ("fmt"@, "json"@),
            ("limit"@, decimal(PAGE_SIZE as nat)),
            ("offset"@, decimal(offset)),
            ("type"@, "album|ep"@),
        ],
    }
}

/// One release group with its artist credits.
pub open spec fn release_group_detail(id: Seq<char>) -> RequestView {
    RequestView {
        base: "https://musicbrainz.org/ws/2/release-group/"@ + id,
        params: seq![("fmt"@, "json"@), ("inc"@, "artist-credits"@)],
    }
}

/// The official releases of a release group, one page of them, with their
/// recordings and labels.
pub open spec fn releases_of_group(id: Seq<char>) -> RequestView {
    RequestView {
        base: "https://musicbrainz.org/ws/2/release"@,
        params: seq![
            ("release-group"@, id),
            ("fmt"@, "json"@),
            ("limit"@, decimal(PAGE_SIZE as nat)),
            ("status"@, "official"@),
            ("inc"@, "recordings+labels"@),
        ],
    }
}

/// One release with its recordings, labels, release group and artist credits.
pub open spec fn release_detail(id: Seq<char>) -> RequestView {
    RequestView {
        base: "https://musicbrainz.org/ws/2/release/"@ + id,
        params: seq![
            ("fmt"@, "json"@),
            ("inc"@, "recordings+labels+release-groups+artist-credits"@),
        ],
    }
}

fn pair(key: &str, value: String) -> (r: (String, String))
    ensures
        r.0@ == key@,
        r.1@ == value@,
{
    (String::from_str(key), value)
}

fn text(value: &str) -> (r: String)
    ensures
        r@ == value@,
{
    String::from_str(value)
}

pub fn artist_search_request(query: &str) -> (r: CatalogRequest)
    ensures
        r@ == artist_search(query@),
{
    let mut params: Vec<(String, String)> = Vec::new();
    params.push(pair("query", text(query)));
    params.push(pair("fmt", text("json")));
    params.push(pair("limit", text("25")));
    let r = CatalogRequest { base: text("https://musicbrainz.org/ws/2/artist"), params };
    proof {
        assert(r@.params =~= artist_search(query@).params);
    }
    r
}

pub fn release_group_page_request(artist_id: &str, offset: usize) -> (r: CatalogRequest)
    ensures
        r@ == release_group_page(artist_id@, offset as nat),
{
    let mut params: Vec<(String, String)> = Vec::new();
    params.push(pair("artist", text(artist_id)));
    params.push(pair("fmt", text("json")));
    params.push(pair("limit", render_decimal(PAGE_SIZE as u64)));
    params.push(pair("offset", render_decimal(offset as u64)));
    params.push(pair("type", text("album|ep")));
    let r = CatalogRequest { base: text("https://musicbrainz.org/ws/2/release-group"), params };
    proof {
        assert(r@.params =~= release_group_page(artist_id@, offset as nat).params);
    }
    r
}

pub fn release_group_request(id: &str) -> (r: CatalogRequest)
    ensures
        r@ == release_group_detail(id@),
{
    let mut base = text("https://musicbrainz.org/ws/2/release-group/");
    base.append(id);
    let mut params: Vec<(String, String)> = Vec::new();
    params.push(pair("fmt", text("json")));
    params.push(pair("inc", text("artist-credits")));
    let r = CatalogRequest { base, params };
    proof {
        assert(r@.params =~= release_group_detail(id@).params);
    }
    r
}

pub fn releases_of_group_request(id: &str) -> (r: CatalogRequest)
    ensures
        r@ == releases_of_group(id@),
{
    let mut params: Vec<(String, String)> = Vec::new();
    params.push(pair("release-group", text(id)));
    params.push(pair("fmt", text("json")));
    params.push(pair("limit", render_decimal(PAGE_SIZE as u64)));
    params.push(pair("status", text("official")));
    params.push(pair("inc", text("recordings+labels")));
    let r = CatalogRequest { base: text("https://musicbrainz.org/ws/2/release"), params };
    proof {
        assert(r@.params =~= releases_of_group(id@).params);
    }
    r
}

pub fn release_request(id: &str) -> (r: CatalogRequest)
    ensures
        r@ == release_detail(id@),
{
    let mut base = text("https://musicbrainz.org/ws/2/release/");
    base.append(id);
    let mut params: Vec<(String, String)> = Vec::new();
    params.push(pair("fmt", text("json")));
    params.push(pair("inc", text("recordings+labels+release-groups+artist-credits")));
    let r = CatalogRequest { base, params };
    proof {
        assert(r@.params =~= release_detail(id@).params);
    }
    r
}

/// The number of bytes that a request takes: the address, and for every pair
/// of the query its key, its value and the two signs that set it off.
pub open spec fn request_bytes(request: RequestView) -> nat
    decreases request.params.len(),
{
    if request.params.len() == 0 {
        utf8(request.base).len()
    } else {
        let last = request.params.last();
        request_bytes(RequestView { base: request.base, params: request.params.drop_last() })
            + utf8(last.0).len() + utf8(last.1).len() + 2
    }
}

/// Tells whether a request is short enough to be written out as a URL: its
/// address and the request as a whole stay within their limits.
pub open spec fn request_fits(request: RequestView) -> bool {
    utf8(request.base).len() <= MAX_ADDRESS_BYTES && request_bytes(request)
        <= MAX_REQUEST_BYTES
}

/// What the url crate makes of an address and the pairs of a query: the text
/// of the finished URL, or the text of its parse error.
pub uninterp spec fn url_text(base: Seq<char>, params: Seq<(Seq<char>, Seq<char>)>) -> Result<
    Seq<char>,
    Seq<char>,
>;

/// The views of the two sides of a result of texts.
pub open spec fn text_result(r: Result<String, String>) -> Result<Seq<char>, Seq<char>> {
    match r {
        Ok(text) => Ok(text@),
        Err(text) => Err(text@),
    }
}

/// Calls `reqwest::Url::parse_with_params(base, params)` and writes the URL,
/// or its parse error, out as text. The result is a function of the arguments
/// alone, named [`url_text`]. The url crate gives up where the URL, as it
/// stands after the host was brought into its ASCII form and the query was
/// added, is longer than 4 GiB; the limits on address and request keep every
/// URL far below that.
#[verifier::external_body]
fn url_with_params(base: &str, params: &Vec<(String, String)>) -> (r: Result<String, String>)
    requires
        request_fits(RequestView { base: base@, params: pair_views(params@) }),
    ensures
        text_result(r) == url_text(base@, pair_views(params@)),
{
    match reqwest::Url::parse_with_params(base, params.iter()) {
        Ok(url) => Ok(url.to_string()),
        Err(err) => Err(err.to_string()),
    }
}

/// Tells whether a request is short enough to be written out as a URL.
pub fn fits(request: &CatalogRequest) -> (r: bool)
    ensures
        r == request_fits(request@),
{
    let mut total: usize = request.base.as_str().as_bytes().len();
    if total > MAX_ADDRESS_BYTES {
        return false;
    }
    let n: usize = request.params.len();
    let mut i: usize = 0;
    proof {
        assert(request@.params.take(0) =~= Seq::empty());
    }
    while i < n
        invariant
            n == request.params@.len(),
            i <= n,
            total <= MAX_REQUEST_BYTES,
            total == request_bytes(
                RequestView { base: request@.base, params: request@.params.take(i as int) },
            ),
        decreases n - i,
    {
        let key_len: usize = request.params[i].0.as_str().as_bytes().len();
        let value_len: usize = request.params[i].1.as_str().as_bytes().len();
        proof {
            let next = request@.params.take(i + 1);
            assert(next.drop_last() =~= request@.params.take(i as int));
            assert(next.last() == request@.params[i as int]);
        }
        let room: usize = MAX_REQUEST_BYTES - total;
        if key_len > room || value_len > room - key_len || 2 > room - key_len - value_len {
            proof {
                lemma_request_bytes_grow(request@, i + 1);
            }
            return false;
        }
        total = total + key_len + value_len + 2;
        i = i + 1;
    }
    proof {
        assert(request@.params.take(n as int) =~= request@.params);
    }
    true
}

/// A request takes at least the bytes of its address and its first pairs.
proof fn lemma_request_bytes_grow(request: RequestView, count: int)
    requires
        0 <= count <= request.params.len(),
    ensures
        request_bytes(RequestView { base: request.base, params: request.params.take(count) })
            <= request_bytes(request),
    decreases request.params.len() - count,
{
    if count == request.params.len() {
        assert(request.params.take(count) =~= request.params);
    } else {
        lemma_request_bytes_grow(request, count + 1);
        let next = request.params.take(count + 1);
        assert(next.drop_last() =~= request.params.take(count));
    }
}

/// The URL of a request, or the error that says why it has none.
pub open spec fn url_of(request: RequestView) -> Result<Seq<char>, crate::api::musicbrainz::ErrorView> {
    if !request_fits(request) {
        Err(crate::api::musicbrainz::ErrorView::Parse("request too long"@))
    } else {
        match url_text(request.base, request.params) {
            Ok(url) => Ok(url),
            Err(reason) => Err(crate::api::musicbrainz::ErrorView::Parse(reason)),
        }
    }
}

/// Writes a request out as a URL. A request whose address is no URL is a
/// parse failure, and so is one that is too long for a URL.
pub fn request_url(request: &CatalogRequest) -> (r: Result<String, MusicBrainzError>)
    ensures
        match url_of(request@) {
            Ok(url) => r matches Ok(text) && text@ == url,
            Err(error) => r matches Err(e) && e@ == error,
        },
{
    if !fits(request) {
        return Err(MusicBrainzError::Parse(String::from_str("request too long")));
    }
    match url_with_params(request.base.as_str(), &request.params) {
        Ok(url) => Ok(url),
        Err(reason) => Err(MusicBrainzError::Parse(reason)),
    }
}

/// The headers that go with every request to the catalog: who asks, what
/// kind of answer is wanted, and the client's identifier.
pub fn catalog_headers(config: &AppConfig) -> (r: Vec<(String, String)>)
    ensures
        pair_views(r@) == seq![
            ("User-Agent"@, config@.user_agent),
            ("Accept"@, "application/json"@),
            ("X-Client-Id"@, config@.client_id),
        ],
{
    let mut out: Vec<(String, String)> = Vec::new();
    out.push(pair("User-Agent", text(config.user_agent())));
    out.push(pair("Accept", text("application/json")));
    out.push(pair("X-Client-Id", text(config.client_id())));
    proof {
        assert(pair_views(out@) =~= seq![
            ("User-Agent"@, config@.user_agent),
            ("Accept"@, "application/json"@),
            ("X-Client-Id"@, config@.client_id),
        ]);
    }
    out
}

} // verus!
