use mb_library::api::musicbrainz::MusicBrainzError;
use mb_library::api::request::{
    artist_search_request, catalog_headers, fits, release_group_page_request,
    release_group_request, release_request, releases_of_group_request, request_url,
    CatalogRequest, CONNECT_TIMEOUT_SECS, MAX_ADDRESS_BYTES, MAX_REQUEST_BYTES, PAGE_SIZE,
    REQUEST_TIMEOUT_SECS,
};
use mb_library::config::AppConfig;

fn pairs(list: &[(&str, &str)]) -> Vec<(String, String)> {
    list.iter().map(|(k, v)| (k.to_string(), v.to_string())).collect()
}

#[test]
fn artist_search_asks_for_25_matches_as_json() {
    let request = artist_search_request("Daft Punk");
    assert_eq!(request.base, "https://musicbrainz.org/ws/2/artist");
    assert_eq!(request.params, pairs(&[("query", "Daft Punk"), ("fmt", "json"), ("limit", "25")]));
    assert_eq!(
        request_url(&request),
        Ok("https://musicbrainz.org/ws/2/artist?query=Daft+Punk&fmt=json&limit=25".to_string())
    );
}

#[test]
fn listing_page_asks_for_albums_and_eps_from_an_offset() {
    let request = release_group_page_request("artist-1", 200);
    assert_eq!(request.base, "https://musicbrainz.org/ws/2/release-group");
    assert_eq!(
        request.params,
        pairs(&[
            ("artist", "artist-1"),
            ("fmt", "json"),
            ("limit", "100"),
            ("offset", "200"),
            ("type", "album|ep"),
        ])
    );
    assert_eq!(
        request_url(&request),
        Ok("https://musicbrainz.org/ws/2/release-group?artist=artist-1&fmt=json&limit=100&offset=200&type=album%7Cep".to_string())
    );
    assert_eq!(PAGE_SIZE, 100);
}

#[test]
fn group_detail_asks_for_artist_credits() {
    let request = release_group_request("abc");
    assert_eq!(request.base, "https://musicbrainz.org/ws/2/release-group/abc");
    assert_eq!(request.params, pairs(&[("fmt", "json"), ("inc", "artist-credits")]));
    assert_eq!(
        request_url(&request),
        Ok("https://musicbrainz.org/ws/2/release-group/abc?fmt=json&inc=artist-credits".to_string())
    );
}

#[test]
fn releases_of_a_group_are_the_official_ones() {
    let request = releases_of_group_request("abc");
    assert_eq!(request.base, "https://musicbrainz.org/ws/2/release");
    assert_eq!(
        request.params,
        pairs(&[
            ("release-group", "abc"),
            ("fmt", "json"),
            ("limit", "100"),
            ("status", "official"),
            ("inc", "recordings+labels"),
        ])
    );
    assert_eq!(
        request_url(&request),
        Ok("https://musicbrainz.org/ws/2/release?release-group=abc&fmt=json&limit=100&status=official&inc=recordings%2Blabels".to_string())
    );
}

#[test]
fn release_detail_asks_for_everything_an_album_needs() {
    let request = release_request("r-1");
    assert_eq!(request.base, "https://musicbrainz.org/ws/2/release/r-1");
    assert_eq!(
        request.params,
        pairs(&[("fmt", "json"), ("inc", "recordings+labels+release-groups+artist-credits")])
    );
    assert_eq!(
        request_url(&request),
        Ok("https://musicbrainz.org/ws/2/release/r-1?fmt=json&inc=recordings%2Blabels%2Brelease-groups%2Bartist-credits".to_string())
    );
}

#[test]
fn address_that_is_no_url_is_a_parse_failure() {
    let request = CatalogRequest { base: "not a url".to_string(), params: Vec::new() };
    match request_url(&request) {
        Err(MusicBrainzError::Parse(reason)) => assert!(!reason.is_empty()),
        other => panic!("unexpected result {other:?}"),
    }
}

#[test]
fn ordinary_requests_fit() {
    assert!(fits(&artist_search_request(&"x".repeat(100_000))));
    assert!(fits(&CatalogRequest { base: String::new(), params: Vec::new() }));
    let url = request_url(&artist_search_request(&"x".repeat(100_000))).unwrap();
    assert_eq!(url.len(), "https://musicbrainz.org/ws/2/artist?query=&fmt=json&limit=25".len() + 100_000);
}

#[test]
fn limits_are_one_and_sixteen_mebibytes() {
    assert_eq!(MAX_ADDRESS_BYTES, 1 << 20);
    assert_eq!(MAX_REQUEST_BYTES, 1 << 24);
}

#[test]
fn address_that_is_too_long_is_a_parse_failure() {
    let prefix = "https://musicbrainz.org/ws/2/release/";
    let at_limit = CatalogRequest {
        base: format!("{prefix}{}", "x".repeat(MAX_ADDRESS_BYTES - prefix.len())),
        params: Vec::new(),
    };
    assert!(fits(&at_limit));
    assert_eq!(request_url(&at_limit).unwrap().len(), MAX_ADDRESS_BYTES + 1);
    let over = CatalogRequest {
        base: format!("{prefix}{}", "x".repeat(MAX_ADDRESS_BYTES - prefix.len() + 1)),
        params: Vec::new(),
    };
    assert!(!fits(&over));
    assert_eq!(request_url(&over), Err(MusicBrainzError::Parse("request too long".to_string())));
}

#[test]
fn request_that_is_too_long_is_a_parse_failure() {
    // every pair counts with its key, its value and two bytes more
    let base = "https://musicbrainz.org/ws/2/artist";
    let room = MAX_REQUEST_BYTES - base.len() - "q".len() - 2;
    let at_limit = CatalogRequest { base: base.to_string(), params: pairs(&[("q", &"x".repeat(room))]) };
    assert!(fits(&at_limit));
    let over = CatalogRequest { base: base.to_string(), params: pairs(&[("q", &"x".repeat(room + 1))]) };
    assert!(!fits(&over));
    assert_eq!(request_url(&over), Err(MusicBrainzError::Parse("request too long".to_string())));
    let many = CatalogRequest {
        base: base.to_string(),
        params: (0..MAX_REQUEST_BYTES / 2).map(|_| (String::new(), String::new())).collect(),
    };
    assert!(!fits(&many));
}

#[test]
fn host_that_grows_in_its_ascii_form_is_written_out() {
    // one sign of the host becomes four, which are packed into one ASCII label
    let request = CatalogRequest { base: "https://\u{337f}.example/".to_string(), params: Vec::new() };
    let url = request_url(&request).unwrap();
    assert!(url.starts_with("https://xn--"));
    assert!(url.len() > request.base.len());
}

#[test]
fn catalog_headers_name_the_client() {
    let config = AppConfig::with_token("tok");
    assert_eq!(
        catalog_headers(&config),
        pairs(&[
            ("User-Agent", "rust-mb-library/0.1.0 ( https://musicbrainz.org ; unique-id=rust-mb-client-tok )"),
            ("Accept", "application/json"),
            ("X-Client-Id", "rust-mb-client-tok"),
        ])
    );
}

#[test]
fn requests_time_out() {
    assert_eq!(REQUEST_TIMEOUT_SECS, 30);
    assert_eq!(CONNECT_TIMEOUT_SECS, 10);
}
