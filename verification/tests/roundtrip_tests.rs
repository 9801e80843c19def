use stationboard::json::Json;
use stationboard::model::{
    Coordinate, Journey, Location, Prognosis, StationBoardElement, StationBoardResponse, Stop,
};
use stationboard::timestamp::Timestamp;

fn geneva_station() -> Location {
    Location {
        id: Some(String::from("8587057")),
        name: Some(String::from("Genève, gare Cornavin")),
        score: None,
        coordinate: Coordinate {
            kind: String::from("WGS84"),
            x: Some(String::from("46.209751")),
            y: Some(String::from("6.14242")),
        },
        distance: None,
    }
}

fn sample_response() -> StationBoardResponse {
    StationBoardResponse {
        station: geneva_station(),
        stationboard: vec![StationBoardElement {
            stop: Stop {
                station: geneva_station(),
                arrival: None,
                departure: Timestamp::parse_str("2024-04-19T12:09:00+0200"),
                delay: Some(3),
                platform: Some(String::from("F")),
                prognosis: Some(Prognosis {
                    platform: None,
                    departure: Timestamp::parse_str("2024-04-19T12:12:00+0200"),
                    arrival: Timestamp::parse_str("2024-04-19T12:15:32+0200"),
                    capacity1st: None,
                    capacity2nd: Some(42),
                }),
            },
            journey: Journey {
                name: Some(String::from("315188")),
                category: String::from("B"),
                category_code: None,
                number: Some(String::from("3")),
                operator: String::from("TPG"),
                to: String::from("Grand-Saconnex, Giacometti"),
                capacity1st: None,
                capacity2nd: None,
                pass_list: vec![Stop {
                    station: geneva_station(),
                    arrival: Timestamp::parse_str("2024-04-19T12:05:00+0200"),
                    departure: Timestamp::parse_str("2024-04-19T12:09:00+0200"),
                    delay: None,
                    platform: None,
                    prognosis: None,
                }],
            },
        }],
    }
}

#[test]
fn coordinate_roundtrips() {
    let c = geneva_station().coordinate;
    let doc = c.encode_json();
    assert_eq!(Coordinate::decode_json(&doc).unwrap(), c);
}

#[test]
fn location_roundtrips() {
    let l = geneva_station();
    let doc = l.encode_json();
    assert_eq!(Location::decode_json(&doc).unwrap(), l);
}

#[test]
fn stop_roundtrips() {
    let s = sample_response().stationboard[0].stop.clone();
    let doc = s.encode_json();
    assert_eq!(Stop::decode_json(&doc).unwrap(), s);
}

#[test]
fn journey_roundtrips() {
    let j = sample_response().stationboard[0].journey.clone();
    let doc = j.encode_json();
    assert_eq!(Journey::decode_json(&doc).unwrap(), j);
}

#[test]
fn response_roundtrips() {
    let r = sample_response();
    let doc = r.encode_json();
    assert_eq!(StationBoardResponse::decode_json(&doc).unwrap(), r);
}

#[test]
fn encoding_writes_absent_fields_as_null() {
    let c = Coordinate { kind: String::from("WGS84"), x: None, y: None };
    match c.encode_json() {
        Json::Obj(members) => {
            assert_eq!(members.len(), 3);
            assert_eq!(members[0], (String::from("type"), Json::Str(String::from("WGS84"))));
            assert_eq!(members[1], (String::from("x"), Json::Null));
            assert_eq!(members[2], (String::from("y"), Json::Null));
        },
        other => panic!("a coordinate must encode as an object, got {:?}", other),
    }
}

#[test]
fn timestamps_reencode_as_given() {
    let s = Stop {
        station: geneva_station(),
        arrival: None,
        departure: Timestamp::parse_str("2024-04-19T12:09:00+0200"),
        delay: Some(3),
        platform: None,
        prognosis: None,
    };
    match s.encode_json() {
        Json::Obj(members) => {
            assert_eq!(
                members[2],
                (String::from("departure"), Json::Str(String::from("2024-04-19T12:09:00+0200")))
            );
        },
        other => panic!("a stop must encode as an object, got {:?}", other),
    }
}
