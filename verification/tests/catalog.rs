use mb_library::api::assemble::{
    build_album_from_group, build_album_from_listing, build_album_from_release, flatten_tracks,
    primary_label,
};
use mb_library::api::musicbrainz::{
    is_success, settle, DetailsFetch, FetchOutcome, FetchStep, MusicBrainzClient,
    MusicBrainzError, PacedRequest,
};
use mb_library::api::request::{artist_search_request, CatalogRequest};
use mb_library::api::wire::{
    ArtistCredit, ArtistItem, ArtistSearchResponse, ArtistSubRecord, LabelInfo, LabelRecord,
    Medium, ReleaseGroup, ReleaseGroupDetail, ReleaseGroupItem, ReleaseItem,
    ReleaseSearchResponse, TextOrNumber, TrackItem,
};
use mb_library::models::album::TrackInfo;

fn credit(name: &str) -> ArtistCredit {
    ArtistCredit { artist: ArtistSubRecord { name: name.to_string() } }
}

fn label(name: Option<&str>) -> LabelInfo {
    LabelInfo { label: Some(LabelRecord { name: name.map(|n| n.to_string()) }) }
}

fn wire_track(position: Option<TextOrNumber>, number: Option<TextOrNumber>, title: &str, length: Option<i64>) -> TrackItem {
    TrackItem { id: "t".to_string(), position, number, title: title.to_string(), length }
}

fn sample_release(id: &str, date: Option<&str>) -> ReleaseItem {
    ReleaseItem {
        id: id.to_string(),
        title: "Homework".to_string(),
        status: Some("Official".to_string()),
        country: Some("FR".to_string()),
        date: date.map(|d| d.to_string()),
        disambiguation: "first pressing".to_string(),
        release_group: ReleaseGroup {
            id: "group-7".to_string(),
            primary_type: Some("Album".to_string()),
            secondary_types: Some(vec!["Live".to_string()]),
            first_release_date: Some("1997-01-20".to_string()),
        },
        artist_credit: vec![credit("Daft Punk"), credit("Somebody Else")],
        label_info: vec![LabelInfo { label: None }, label(None), label(Some("Virgin")), label(Some("Other"))],
        media: vec![
            Medium {
                track_count: 2,
                tracks: vec![
                    wire_track(Some(TextOrNumber::Number(1)), Some(TextOrNumber::Text("A1".to_string())), "Daftendirekt", Some(164_000)),
                    wire_track(Some(TextOrNumber::Text(String::new())), Some(TextOrNumber::Text("A2".to_string())), "WDPK 83.7 FM", None),
                ],
            },
            Medium { track_count: 0, tracks: vec![] },
            Medium {
                track_count: 1,
                tracks: vec![wire_track(None, None, "Revolution 909", Some(335_000))],
            },
        ],
    }
}

fn sample_group() -> ReleaseGroupDetail {
    ReleaseGroupDetail {
        id: "group-7".to_string(),
        title: "Homework (group)".to_string(),
        disambiguation: "".to_string(),
        primary_type: None,
        secondary_types: None,
        first_release_date: Some("1997-01-17".to_string()),
        artist_credit: vec![credit("Daft Punk")],
    }
}

fn answer<T>(status: u16, body: Result<T, &str>) -> FetchOutcome<T> {
    FetchOutcome::Answer { status, body: body.map_err(|m| m.to_string()) }
}

#[test]
fn text_or_number_writes_numbers_in_decimal() {
    assert_eq!(TextOrNumber::Text("B2".to_string()).into_string(), "B2");
    assert_eq!(TextOrNumber::Number(12).into_string(), "12");
    assert_eq!(TextOrNumber::Number(-3).into_string(), "-3");
    assert_eq!(TextOrNumber::Number(0).to_text(), "0");
}

#[test]
fn track_position_prefers_the_structured_position() {
    let item = wire_track(Some(TextOrNumber::Number(3)), Some(TextOrNumber::Text("C".to_string())), "x", Some(5));
    assert_eq!(TrackInfo::from_track_item(&item), TrackInfo { position: "3".to_string(), title: "x".to_string(), length_ms: 5 });
}

#[test]
fn track_position_falls_back_to_the_number() {
    let empty = wire_track(Some(TextOrNumber::Text(String::new())), Some(TextOrNumber::Text("C".to_string())), "x", None);
    assert_eq!(TrackInfo::from_track_item(&empty).position, "C");
    assert_eq!(TrackInfo::from_track_item(&empty).length_ms, 0);
    let missing = wire_track(None, Some(TextOrNumber::Number(4)), "x", None);
    assert_eq!(TrackInfo::from_track_item(&missing).position, "4");
    let neither = wire_track(None, None, "x", None);
    assert_eq!(TrackInfo::from_track_item(&neither).position, "");
    let both_empty = wire_track(Some(TextOrNumber::Text(String::new())), Some(TextOrNumber::Text(String::new())), "x", None);
    assert_eq!(TrackInfo::from_track_item(&both_empty).position, "");
}

#[test]
fn tracks_are_flattened_medium_by_medium() {
    let release = sample_release("r", None);
    let tracks = flatten_tracks(&release.media);
    let titles: Vec<&str> = tracks.iter().map(|t| t.title.as_str()).collect();
    assert_eq!(titles, vec!["Daftendirekt", "WDPK 83.7 FM", "Revolution 909"]);
    assert_eq!(tracks[0].position, "1");
    assert_eq!(tracks[1].position, "A2");
    assert_eq!(tracks[2].position, "");
    assert_eq!(tracks[0].length_ms, 164_000);
    assert!(flatten_tracks(&Vec::new()).is_empty());
}

#[test]
fn label_is_the_first_entry_with_a_name() {
    let release = sample_release("r", None);
    assert_eq!(primary_label(&release.label_info), "Virgin");
    assert_eq!(primary_label(&vec![LabelInfo::default(), label(None)]), "");
    assert_eq!(primary_label(&vec![label(Some("")), label(Some("Late"))]), "");
    assert_eq!(primary_label(&Vec::new()), "");
}

#[test]
fn album_of_a_release_goes_by_the_groups_id() {
    let album = build_album_from_release(&sample_release("release-3", Some("1997-03-01")));
    assert_eq!(album.id, "group-7");
    assert_eq!(album.release_id, "release-3");
    assert_eq!(album.title, "Homework");
    assert_eq!(album.artist, "Daft Punk");
    assert_eq!(album.primary_type, "Album");
    assert_eq!(album.secondary_types, vec!["Live".to_string()]);
    assert_eq!(album.status, "Official");
    assert_eq!(album.first_release_date, "1997-01-20");
    assert_eq!(album.disambiguation, "first pressing");
    assert_eq!(album.label, "Virgin");
    assert_eq!(album.country, "FR");
    assert_eq!(album.tracklist.len(), 3);
}

#[test]
fn album_of_a_bare_release_is_empty() {
    let mut release = ReleaseItem::default();
    release.release_group.secondary_types = None;
    let album = build_album_from_release(&release);
    assert_eq!(album, mb_library::models::album::Album::default());
}

#[test]
fn album_of_a_group_takes_title_and_date_from_the_group() {
    let album = build_album_from_group(&sample_group(), &sample_release("release-3", None));
    assert_eq!(album.id, "group-7");
    assert_eq!(album.release_id, "release-3");
    assert_eq!(album.title, "Homework (group)");
    assert_eq!(album.artist, "Daft Punk");
    assert_eq!(album.primary_type, "");
    assert!(album.secondary_types.is_empty());
    assert_eq!(album.first_release_date, "1997-01-17");
    assert_eq!(album.disambiguation, "");
    assert_eq!(album.status, "Official");
    assert_eq!(album.label, "Virgin");
    assert_eq!(album.country, "FR");
    assert_eq!(album.tracklist.len(), 3);
}

#[test]
fn album_of_a_listing_entry_has_no_release_yet() {
    let group = ReleaseGroupItem {
        id: "g".to_string(),
        title: "T".to_string(),
        disambiguation: "d".to_string(),
        primary_type: Some("EP".to_string()),
        secondary_types: Some(vec!["Remix".to_string()]),
        first_release_date: Some("2001".to_string()),
    };
    let album = build_album_from_listing(&group);
    assert_eq!(album.id, "g");
    assert_eq!(album.release_id, "");
    assert_eq!(album.title, "T");
    assert_eq!(album.artist, "");
    assert_eq!(album.primary_type, "EP");
    assert_eq!(album.secondary_types, vec!["Remix".to_string()]);
    assert_eq!(album.first_release_date, "2001");
    assert_eq!(album.disambiguation, "d");
    assert!(album.tracklist.is_empty());
}

#[test]
fn statuses_from_200_to_299_are_success() {
    assert!(!is_success(199));
    assert!(is_success(200));
    assert!(is_success(204));
    assert!(is_success(299));
    assert!(!is_success(300));
    assert!(!is_success(404));
    assert!(!is_success(503));
}

#[test]
fn every_kind_of_failure_has_its_own_error() {
    let transport: FetchOutcome<u8> = FetchOutcome::Transport("timed out".to_string());
    assert_eq!(settle(transport), Err(MusicBrainzError::Network("timed out".to_string())));
    assert_eq!(settle(answer::<u8>(404, Ok(1))), Err(MusicBrainzError::Status(404)));
    assert_eq!(settle(answer::<u8>(503, Err("ignored"))), Err(MusicBrainzError::Status(503)));
    assert_eq!(settle(answer::<u8>(200, Err("expected value"))), Err(MusicBrainzError::Parse("expected value".to_string())));
    assert_eq!(settle(answer::<u8>(200, Ok(7))), Ok(7));
}

#[test]
fn errors_are_reported_in_sentences() {
    assert_eq!(MusicBrainzError::Network("timed out".to_string()).message(), "network error: timed out");
    assert_eq!(MusicBrainzError::Parse("bad".to_string()).message(), "failed to parse response: bad");
    assert_eq!(MusicBrainzError::Empty.message(), "no results returned");
    assert_eq!(MusicBrainzError::Status(404).message(), "unexpected status: 404");
}

#[test]
fn search_keeps_the_catalogs_order() {
    let body = ArtistSearchResponse {
        artists: vec![
            ArtistItem { id: "2".to_string(), name: "Zed".to_string(), disambiguation: "".to_string(), score: 100 },
            ArtistItem { id: "1".to_string(), name: "Abe".to_string(), disambiguation: "x".to_string(), score: 90 },
            ArtistItem { id: "3".to_string(), name: "Moe".to_string(), disambiguation: "".to_string(), score: 95 },
        ],
    };
    let artists = MusicBrainzClient::search_artists(answer(200, Ok(body))).unwrap();
    let names: Vec<&str> = artists.iter().map(|a| a.name.as_str()).collect();
    assert_eq!(names, vec!["Zed", "Abe", "Moe"]);
    assert_eq!(artists[1].id, "1");
    assert_eq!(artists[1].disambiguation, "x");
    assert_eq!(artists[1].score, 90);
}

#[test]
fn search_without_matches_is_an_empty_result() {
    assert_eq!(MusicBrainzClient::search_artists(answer(200, Ok(ArtistSearchResponse::default()))), Err(MusicBrainzError::Empty));
}

#[test]
fn search_passes_failures_on() {
    assert_eq!(MusicBrainzClient::search_artists(FetchOutcome::Transport("down".to_string())), Err(MusicBrainzError::Network("down".to_string())));
    assert_eq!(MusicBrainzClient::search_artists(answer(500, Err(""))), Err(MusicBrainzError::Status(500)));
    assert_eq!(MusicBrainzClient::search_artists(answer(200, Err("eof"))), Err(MusicBrainzError::Parse("eof".to_string())));
}

#[test]
fn details_use_the_earliest_release() {
    let body = ReleaseSearchResponse {
        releases: vec![
            sample_release("late", Some("1997-03-25")),
            sample_release("early", Some("1997-01-20")),
            sample_release("undated", Some("")),
        ],
    };
    let album = MusicBrainzClient::fetch_album_details(&sample_group(), answer(200, Ok(body))).unwrap();
    // the undated release counts as of the group's date, 1997-01-17
    assert_eq!(album.release_id, "undated");
    assert_eq!(album.id, "group-7");
    assert_eq!(album.title, "Homework (group)");
    assert_eq!(album.first_release_date, "1997-01-17");
}

#[test]
fn details_of_a_group_without_date_use_the_dated_release() {
    let mut group = sample_group();
    group.first_release_date = None;
    let body = ReleaseSearchResponse {
        releases: vec![
            sample_release("undated", None),
            sample_release("late", Some("1997-03-25")),
            sample_release("early", Some("1997-01-20")),
        ],
    };
    let album = MusicBrainzClient::fetch_album_details(&group, answer(200, Ok(body))).unwrap();
    assert_eq!(album.release_id, "early");
    assert_eq!(album.first_release_date, "");
}

#[test]
fn details_without_releases_are_an_empty_result() {
    assert_eq!(MusicBrainzClient::fetch_album_details(&sample_group(), answer(200, Ok(ReleaseSearchResponse::default()))), Err(MusicBrainzError::Empty));
}

#[test]
fn details_pass_failures_on() {
    assert_eq!(MusicBrainzClient::fetch_album_details(&sample_group(), FetchOutcome::Transport("reset".to_string())), Err(MusicBrainzError::Network("reset".to_string())));
    assert_eq!(MusicBrainzClient::fetch_album_details(&sample_group(), answer(404, Err(""))), Err(MusicBrainzError::Status(404)));
    assert_eq!(MusicBrainzClient::fetch_album_details(&sample_group(), answer(200, Err("bad json"))), Err(MusicBrainzError::Parse("bad json".to_string())));
}

#[test]
fn release_fetch_retries_transport_failures_with_growing_pauses() {
    let fail = || FetchOutcome::<ReleaseItem>::Transport("reset".to_string());
    assert_eq!(MusicBrainzClient::fetch_album_by_release_id(1, fail()), FetchStep::RetryAfter { wait_ms: 1_000, attempt: 2 });
    assert_eq!(MusicBrainzClient::fetch_album_by_release_id(2, fail()), FetchStep::RetryAfter { wait_ms: 2_000, attempt: 3 });
    assert_eq!(MusicBrainzClient::fetch_album_by_release_id(3, fail()), FetchStep::Finished(Err(MusicBrainzError::Network("reset".to_string()))));
    assert_eq!(MusicBrainzClient::fetch_album_by_release_id(4, fail()), FetchStep::Finished(Err(MusicBrainzError::Network("reset".to_string()))));
}

#[test]
fn release_fetch_does_not_retry_answers() {
    assert_eq!(MusicBrainzClient::fetch_album_by_release_id(1, answer(404, Err(""))), FetchStep::Finished(Err(MusicBrainzError::Status(404))));
    assert_eq!(MusicBrainzClient::fetch_album_by_release_id(1, answer(503, Err(""))), FetchStep::Finished(Err(MusicBrainzError::Status(503))));
    assert_eq!(MusicBrainzClient::fetch_album_by_release_id(2, answer(200, Err("bad"))), FetchStep::Finished(Err(MusicBrainzError::Parse("bad".to_string()))));
}

#[test]
fn release_fetch_builds_the_album_on_success() {
    let step = MusicBrainzClient::fetch_album_by_release_id(2, answer(200, Ok(sample_release("release-3", None))));
    match step {
        FetchStep::Finished(Ok(album)) => {
            assert_eq!(album.id, "group-7");
            assert_eq!(album.release_id, "release-3");
            assert_eq!(album.title, "Homework");
        }
        other => panic!("unexpected step {other:?}"),
    }
}

#[test]
fn mock_transport_is_called_three_times_before_giving_up() {
    let mut calls = 0;
    let mut waits = Vec::new();
    let mut attempt = 1;
    let result = loop {
        calls += 1;
        match MusicBrainzClient::fetch_album_by_release_id(attempt, FetchOutcome::Transport("down".to_string())) {
            FetchStep::RetryAfter { wait_ms, attempt: next } => {
                waits.push(wait_ms);
                attempt = next;
            }
            FetchStep::Finished(result) => break result,
        }
    };
    assert_eq!(calls, 3);
    assert_eq!(waits, vec![1_000, 2_000]);
    assert_eq!(result, Err(MusicBrainzError::Network("down".to_string())));
}

#[test]
fn client_names_itself_and_paces_its_requests() {
    let config = mb_library::config::AppConfig::with_token("tok");
    let mut client = MusicBrainzClient::new(&config);
    let headers = client.base_headers().clone();
    assert_eq!(headers[0], ("User-Agent".to_string(), config.user_agent().to_string()));
    assert_eq!(headers[1], ("Accept".to_string(), "application/json".to_string()));
    assert_eq!(headers[2], ("X-Client-Id".to_string(), "rust-mb-client-tok".to_string()));
    assert!(client.can_await_throttle(0));
    assert!(!client.can_await_throttle(u64::MAX));
    assert_eq!(client.await_throttle(1_000), 0);
    assert_eq!(client.await_throttle(1_000), 1_100);
    assert_eq!(client.await_throttle(2_100), 1_100);
    assert_eq!(client.await_throttle(4_000), 300);
    assert_eq!(client.await_throttle(9_000), 0);
}

/// Fetches the album of a group from a backend that answers the requests
/// in turn, and tells which requests were made.
fn fetch_details(
    group: FetchOutcome<ReleaseGroupDetail>,
    releases: FetchOutcome<ReleaseSearchResponse>,
) -> (Vec<CatalogRequest>, Result<mb_library::models::album::Album, MusicBrainzError>) {
    let mut asked = Vec::new();
    let first = DetailsFetch::begin("group-7");
    asked.push(first.request());
    let second = match first.advance(group) {
        Ok(second) => second,
        Err(err) => return (asked, Err(err)),
    };
    asked.push(second.request());
    let result = second.finish(releases);
    (asked, result)
}

#[test]
fn details_ask_for_the_group_and_then_for_its_releases() {
    let body = ReleaseSearchResponse { releases: vec![sample_release("r1", Some("1997-01-20"))] };
    let (asked, result) = fetch_details(answer(200, Ok(sample_group())), answer(200, Ok(body)));
    assert_eq!(asked.len(), 2);
    assert_eq!(asked[0].base, "https://musicbrainz.org/ws/2/release-group/group-7");
    assert_eq!(asked[0].params[1], ("inc".to_string(), "artist-credits".to_string()));
    assert_eq!(asked[1].base, "https://musicbrainz.org/ws/2/release");
    assert_eq!(asked[1].params[0], ("release-group".to_string(), "group-7".to_string()));
    assert_eq!(asked[1].params[2], ("limit".to_string(), "100".to_string()));
    assert_eq!(asked[1].params[3], ("status".to_string(), "official".to_string()));
    let album = result.unwrap();
    assert_eq!(album.id, "group-7");
    assert_eq!(album.release_id, "r1");
}

#[test]
fn details_end_after_a_failed_first_request() {
    let unused = || answer(200, Ok(ReleaseSearchResponse::default()));
    let (asked, result) = fetch_details(FetchOutcome::Transport("down".to_string()), unused());
    assert_eq!(asked.len(), 1);
    assert_eq!(result, Err(MusicBrainzError::Network("down".to_string())));
    let (asked, result) = fetch_details(answer(404, Err("")), unused());
    assert_eq!(asked.len(), 1);
    assert_eq!(result, Err(MusicBrainzError::Status(404)));
    let (asked, result) = fetch_details(answer(200, Err("bad json")), unused());
    assert_eq!(asked.len(), 1);
    assert_eq!(result, Err(MusicBrainzError::Parse("bad json".to_string())));
}

#[test]
fn details_end_with_the_error_of_the_second_request() {
    let (asked, result) = fetch_details(answer(200, Ok(sample_group())), answer(503, Err("")));
    assert_eq!(asked.len(), 2);
    assert_eq!(result, Err(MusicBrainzError::Status(503)));
    let (_, result) = fetch_details(answer(200, Ok(sample_group())), answer(200, Ok(ReleaseSearchResponse::default())));
    assert_eq!(result, Err(MusicBrainzError::Empty));
}

#[test]
fn every_planned_request_takes_its_turn() {
    let config = mb_library::config::AppConfig::with_token("tok");
    let mut client = MusicBrainzClient::new(&config);
    let request = artist_search_request("air");
    let url = "https://musicbrainz.org/ws/2/artist?query=air&fmt=json&limit=25".to_string();
    assert_eq!(client.plan_request(&request, 1_000), Ok(PacedRequest { url: url.clone(), wait_ms: 0 }));
    assert_eq!(client.plan_request(&request, 1_500), Ok(PacedRequest { url: url.clone(), wait_ms: 600 }));
    assert_eq!(client.plan_request(&request, 2_100), Ok(PacedRequest { url, wait_ms: 1_100 }));
}

#[test]
fn request_that_cannot_be_written_out_takes_no_turn() {
    let config = mb_library::config::AppConfig::with_token("tok");
    let mut client = MusicBrainzClient::new(&config);
    assert_eq!(client.await_throttle(1_000), 0);
    let broken = CatalogRequest { base: "not a url".to_string(), params: Vec::new() };
    assert!(matches!(client.plan_request(&broken, 1_100), Err(MusicBrainzError::Parse(_))));
    // the stamp still stands at 1000
    assert_eq!(client.await_throttle(1_200), 900);
}
