use stationboard::errors::ApiError;
use stationboard::request::build_stationboard_url;
use stationboard::timestamp::Timestamp;

fn url_string(r: Result<Vec<u8>, ApiError>) -> String {
    String::from_utf8(r.unwrap()).unwrap()
}

#[test]
fn neither_station_nor_id_is_refused() {
    assert_eq!(
        build_stationboard_url(None, None, Some(5), None, None, None),
        Err(ApiError::InvalidRequest)
    );
    assert_eq!(
        build_stationboard_url(None, None, None, None, None, Some("arrival")),
        Err(ApiError::InvalidRequest)
    );
}

#[test]
fn id_alone_is_enough() {
    let url = url_string(build_stationboard_url(None, Some("8587057"), None, None, None, None));
    assert_eq!(url, "https://transport.opendata.ch/v1/stationboard?id=8587057");
}

#[test]
fn station_alone_is_enough() {
    let url = url_string(build_stationboard_url(Some("Bern"), None, None, None, None, None));
    assert_eq!(url, "https://transport.opendata.ch/v1/stationboard?station=Bern");
}

#[test]
fn all_parameters_build_one_entry_each() {
    let transportations = vec![String::from("metro"), String::from("tram")];
    let datetime = Timestamp::parse_str("2024-04-19T12:09:00+0200").unwrap();
    let url = url_string(build_stationboard_url(
        Some("Genève, Cornavin"),
        Some("8587057"),
        Some(3),
        Some(&transportations),
        Some(datetime),
        Some("arrival"),
    ));
    assert_eq!(
        url,
        "https://transport.opendata.ch/v1/stationboard?station=Gen%C3%A8ve%2C+Cornavin\
         &id=8587057&type=arrival&limit=3&transportations=metro&transportations=tram\
         &datetime=2024-04-19+12%3A09"
    );
}

#[test]
fn values_are_form_urlencoded() {
    let url = url_string(build_stationboard_url(
        Some("a b&c=d/e*f-g._~"),
        None,
        None,
        None,
        None,
        None,
    ));
    assert_eq!(
        url,
        "https://transport.opendata.ch/v1/stationboard?station=a+b%26c%3Dd%2Fe*f-g._%7E"
    );
}

#[test]
fn id_limit_matches_the_fetch_defaults() {
    let url = url_string(build_stationboard_url(None, Some("8503000"), Some(5), None, None, None));
    assert_eq!(url, "https://transport.opendata.ch/v1/stationboard?id=8503000&limit=5");
}
