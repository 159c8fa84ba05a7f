use space_eye::catalog::{CachedCatalog, Catalog};
use space_eye::fetch::{
    conclude, stamp, status_is_success, validate, FetchError, FetchResponse, TransportFailure,
    CATALOG_URL,
};
use space_eye::json::{parse_json, Json};

const BODY: &str = "{\"dnsHttpProbeOverride\":[\"probe.example\"],\"satellites\":[]}";

fn response(status: u16, etag: Option<&str>, body: &str) -> FetchResponse {
    FetchResponse { status, etag: etag.map(String::from), body: body.as_bytes().to_vec() }
}

fn small_catalog() -> Catalog {
    Catalog { dns_http_probe_override: vec![String::from("probe.example")], satellites: vec![] }
}

#[test]
fn the_catalog_address_is_fixed() {
    assert_eq!(
        CATALOG_URL,
        "https://spaceeye-satellite-configs.s3.us-east-2.amazonaws.com/1.2.0/config.json"
    );
}

#[test]
fn a_good_response_gives_a_snapshot_stamped_with_the_time() {
    let snapshot = conclude(Ok(response(200, Some("\"abc\""), BODY)), 1_700_000_000).unwrap();
    assert_eq!(
        snapshot,
        CachedCatalog {
            catalog: small_catalog(),
            etag: String::from("\"abc\""),
            downloaded_at: 1_700_000_000,
        }
    );
}

#[test]
fn a_response_without_etag_is_missing_metadata() {
    assert_eq!(conclude(Ok(response(200, None, BODY)), 5), Err(FetchError::MissingMetadata));
    assert_eq!(
        conclude(Ok(response(200, None, "no json at all")), 5),
        Err(FetchError::MissingMetadata)
    );
}

#[test]
fn an_empty_etag_is_still_an_etag() {
    let snapshot = conclude(Ok(response(200, Some(""), BODY)), 5).unwrap();
    assert_eq!(snapshot.etag, "");
}

#[test]
fn a_body_that_is_no_json_is_malformed() {
    assert_eq!(
        conclude(Ok(response(200, Some("t"), "<html>oops</html>")), 5),
        Err(FetchError::Malformed)
    );
    assert_eq!(conclude(Ok(response(200, Some("t"), "")), 5), Err(FetchError::Malformed));
}

#[test]
fn a_body_that_is_json_but_no_catalog_is_malformed() {
    assert_eq!(conclude(Ok(response(200, Some("t"), "{}")), 5), Err(FetchError::Malformed));
    assert_eq!(
        conclude(Ok(response(200, Some("t"), "{\"dnsHttpProbeOverride\":[],\"satellites\":7}")), 5),
        Err(FetchError::Malformed)
    );
    assert_eq!(conclude(Ok(response(200, Some("t"), "[1,2,3]")), 5), Err(FetchError::Malformed));
}

#[test]
fn a_failed_transport_is_a_transport_error_with_its_reason() {
    assert_eq!(
        conclude(Err(String::from("connection refused")), 5),
        Err(FetchError::Transport(TransportFailure::Network(String::from("connection refused"))))
    );
}

#[test]
fn a_status_that_is_no_success_is_a_transport_error() {
    for status in [100u16, 199, 300, 304, 404, 500, 503] {
        assert_eq!(
            conclude(Ok(response(status, Some("t"), BODY)), 5),
            Err(FetchError::Transport(TransportFailure::Status(status))),
        );
    }
}

#[test]
fn the_status_is_looked_at_before_the_etag_and_the_body() {
    assert_eq!(
        conclude(Ok(response(404, None, "not found")), 5),
        Err(FetchError::Transport(TransportFailure::Status(404)))
    );
}

#[test]
fn every_status_from_200_to_299_is_a_success() {
    assert!(!status_is_success(0));
    assert!(!status_is_success(199));
    assert!(status_is_success(200));
    assert!(status_is_success(204));
    assert!(status_is_success(299));
    assert!(!status_is_success(300));
    assert!(!status_is_success(u16::MAX));
    assert!(conclude(Ok(response(299, Some("t"), BODY)), 5).is_ok());
    assert!(conclude(Ok(response(204, Some("t"), BODY)), 5).is_ok());
}

#[test]
fn validate_hands_the_etag_on() {
    assert_eq!(validate(200, Some(String::from("v1"))), Ok(String::from("v1")));
    assert_eq!(validate(200, None), Err(FetchError::MissingMetadata));
    assert_eq!(
        validate(500, Some(String::from("v1"))),
        Err(FetchError::Transport(TransportFailure::Status(500)))
    );
    assert_eq!(validate(500, None), Err(FetchError::Transport(TransportFailure::Status(500))));
}

#[test]
fn stamp_keeps_the_token_and_the_time() {
    let snapshot = stamp(parse_json(BODY.as_bytes()), String::from("v7"), 42).unwrap();
    assert_eq!(snapshot.catalog, small_catalog());
    assert_eq!(snapshot.etag, "v7");
    assert_eq!(snapshot.downloaded_at, 42);
    assert_eq!(stamp(parse_json(BODY.as_bytes()), String::new(), u64::MAX).unwrap().downloaded_at, u64::MAX);
}

#[test]
fn stamp_without_a_catalog_is_malformed() {
    assert_eq!(stamp(None, String::from("v7"), 42), Err(FetchError::Malformed));
    assert_eq!(stamp(Some(Json::Null), String::from("v7"), 42), Err(FetchError::Malformed));
    assert_eq!(
        stamp(Some(Json::Object(vec![])), String::from("v7"), 42),
        Err(FetchError::Malformed)
    );
}

#[test]
fn the_scenario_body_is_fetched_whole() {
    let body = "{\"dnsHttpProbeOverride\":[],\"satellites\":[{\"id\":1,\"name\":\"GOES-16\",\"views\":[{\"id\":10,\"name\":\"CONUS\",\"imageSources\":[{\"id\":100,\"url\":\"https://x/5k.jpg\",\"estimatedSize\":\"5k\",\"updateInterval\":600,\"dimensions\":[5000,5000],\"defaultScaling\":\"fit\"}]}]}]}";
    let snapshot = conclude(Ok(response(200, Some("W/\"1\""), body)), 9).unwrap();
    assert_eq!(snapshot.catalog.satellites.len(), 1);
    assert_eq!(snapshot.catalog.satellites[0].name, "GOES-16");
    assert_eq!(snapshot.catalog.satellites[0].views[0].image_sources[0].update_interval, 600);
    assert_eq!(snapshot.etag, "W/\"1\"");
}
