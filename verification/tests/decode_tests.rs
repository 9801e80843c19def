use stationboard::errors::ApiError;
use stationboard::model::{Coordinate, Journey, Location, Prognosis, StationBoardResponse, Stop};
use stationboard::timestamp::Timestamp;

fn ts(
    year: u32,
    month: u32,
    day: u32,
    hour: u32,
    minute: u32,
    second: u32,
    offset_minutes: i32,
) -> Timestamp {
    Timestamp { year, month, day, hour, minute, second, offset_minutes }
}

fn coordinate_geneva() -> Coordinate {
    Coordinate {
        kind: String::from("WGS84"),
        x: Some(String::from("46.209751")),
        y: Some(String::from("6.14242")),
    }
}

fn coordinate_zurich() -> Coordinate {
    Coordinate {
        kind: String::from("WGS84"),
        x: Some(String::from("47.377847")),
        y: Some(String::from("8.540502")),
    }
}

fn location_geneva() -> Location {
    Location {
        id: Some(String::from("8587057")),
        name: Some(String::from("Gen\u{00e8}ve, gare Cornavin")),
        score: None,
        coordinate: coordinate_geneva(),
        distance: None,
    }
}

fn location_zurich() -> Location {
    Location {
        id: Some(String::from("8503000")),
        name: Some(String::from("Z\u{00fc}rich HB")),
        score: None,
        coordinate: coordinate_zurich(),
        distance: None,
    }
}

fn prognosis_geneva() -> Prognosis {
    Prognosis {
        platform: None,
        arrival: Some(ts(2024, 4, 19, 12, 15, 32, 120)),
        departure: Some(ts(2024, 4, 19, 12, 12, 0, 120)),
        capacity1st: None,
        capacity2nd: None,
    }
}

fn prognosis_zurich() -> Prognosis {
    Prognosis {
        platform: None,
        arrival: None,
        departure: Some(ts(2024, 4, 23, 11, 38, 0, 120)),
        capacity1st: None,
        capacity2nd: None,
    }
}

fn stop_geneva() -> Stop {
    Stop {
        station: location_geneva(),
        arrival: None,
        departure: Some(ts(2024, 4, 19, 12, 9, 0, 120)),
        delay: Some(3),
        platform: Some(String::from("F")),
        prognosis: Some(prognosis_geneva()),
    }
}

fn stop_zurich() -> Stop {
    Stop {
        station: location_zurich(),
        arrival: None,
        departure: Some(ts(2024, 4, 23, 11, 38, 0, 120)),
        delay: Some(0),
        platform: Some(String::from("8")),
        prognosis: Some(prognosis_zurich()),
    }
}

#[test]
fn parse_coordinates() {
    let expected = coordinate_geneva();
    let test_data = r#"
         {
            "type": "WGS84",
            "x": 46.209751,
            "y": 6.14242
        }"#;

    let c: Coordinate = Coordinate::from_json_text(test_data).unwrap();
    assert_eq!(c, expected);

    let expected = coordinate_zurich();
    let test_data = r#"
        {
            "type": "WGS84",
            "x": 47.377847,
            "y": 8.540502
        }"#;

    let c: Coordinate = Coordinate::from_json_text(test_data).unwrap();
    assert_eq!(c, expected)
}

#[test]
fn parse_location() {
    let expected = location_geneva();
    let test_data = r#"{
            "id": "8587057",
            "name": "Genève, gare Cornavin",
            "score": null,
            "coordinate": {
                "type": "WGS84",
                "x": 46.209751,
                "y": 6.14242
            },
            "distance": null
        }"#;

    let l: Location = Location::from_json_text(test_data).unwrap();
    assert_eq!(l, expected);

    let expected = location_zurich();
    let test_data = r#"{
            "id": "8503000",
            "name": "Zürich HB",
            "score": null,
            "coordinate": {
                "type": "WGS84",
                "x": 47.377847,
                "y": 8.540502
            },
            "distance": null
        }"#;

    let l: Location = Location::from_json_text(test_data).unwrap();
    assert_eq!(l, expected)
}

#[test]
fn parse_prognosis() {
    let expected = prognosis_geneva();
    let test_data = r#"{
            "platform": null,
            "arrival": "2024-04-19T12:15:32+0200",
            "departure": "2024-04-19T12:12:00+0200",
            "capacity1st": null,
            "capacity2nd": null
        }"#;
    let p: Prognosis = Prognosis::from_json_text(test_data).unwrap();
    assert_eq!(p, expected);

    let expected = prognosis_zurich();
    let test_data = r#"{
            "platform": null,
            "arrival": null,
            "departure": "2024-04-23T11:38:00+0200",
            "capacity1st": null,
            "capacity2nd": null
        }"#;
    let p: Prognosis = Prognosis::from_json_text(test_data).unwrap();
    assert_eq!(p, expected);
}

#[test]
fn parse_stop() {
    let expected = stop_geneva();
    let test_data = r#"{
            "station": {
                "id": "8587057",
                "name": "Genève, gare Cornavin",
                "score": null,
                "coordinate": {
                    "type": "WGS84",
                    "x": 46.209751,
                    "y": 6.14242
                },
                "distance": null
            },
            "arrival": null,
            "arrivalTimestamp": null,
            "departure": "2024-04-19T12:09:00+0200",
            "departureTimestamp": 1713521340,
            "delay": 3,
            "platform": "F",
            "prognosis": {
                "platform": null,
                "arrival": "2024-04-19T12:15:32+0200",
                "departure": "2024-04-19T12:12:00+0200",
                "capacity1st": null,
                "capacity2nd": null
            },
            "realtimeAvailability": null,
            "location": {
                "id": "8592899",
                "name": null,
                "score": null,
                "coordinate": {
                    "type": "WGS84",
                    "x": null,
                    "y": null
                },
                "distance": null
            }
        }"#;

    let s: Stop = Stop::from_json_text(test_data).unwrap();
    assert_eq!(s, expected);

    let expected = stop_zurich();
    let test_data = r#"{
            "station": {
                "id": "8503000",
                "name": "Zürich HB",
                "score": null,
                "coordinate": {
                    "type": "WGS84",
                    "x": 47.377847,
                    "y": 8.540502
                },
                "distance": null
            },
            "arrival": null,
            "arrivalTimestamp": null,
            "departure": "2024-04-23T11:38:00+0200",
            "departureTimestamp": 1713865080,
            "delay": 0,
            "platform": "8",
            "prognosis": {
                "platform": null,
                "arrival": null,
                "departure": "2024-04-23T11:38:00+0200",
                "capacity1st": null,
                "capacity2nd": null
            },
            "realtimeAvailability": null,
            "location": {
                "id": "8509000",
                "name": null,
                "score": null,
                "coordinate": {
                    "type": "WGS84",
                    "x": null,
                    "y": null
                },
                "distance": null
            }
        }"#;

    let s: Stop = Stop::from_json_text(test_data).unwrap();
    assert_eq!(s, expected);
}

#[test]
fn parse_journey() {
    let expected = Journey {
        name: Some(String::from("315188")),
        category: String::from("B"),
        category_code: None,
        number: Some(String::from("3")),
        operator: String::from("TPG"),
        to: String::from("Grand-Saconnex, Giacometti"),
        capacity1st: None,
        capacity2nd: None,
        pass_list: vec![Stop {
            station: Location {
                id: Some(String::from("8592899")),
                name: None,
                score: None,
                coordinate: Coordinate { kind: String::from("WGS84"), x: None, y: None },
                distance: None,
            },
            arrival: None,
            departure: Some(ts(2024, 4, 19, 12, 9, 0, 120)),
            delay: Some(3),
            platform: Some(String::from("F")),
            prognosis: Some(prognosis_geneva()),
        }],
    };
    let test_data = r#"{
            "stop": {
                "station": {
                    "id": "8587057",
                    "name": "Genève, gare Cornavin",
                    "score": null,
                    "coordinate": {
                        "type": "WGS84",
                        "x": 46.209751,
                        "y": 6.14242
                    },
                    "distance": null
                },
                "arrival": null,
                "arrivalTimestamp": null,
                "departure": "2024-04-19T12:09:00+0200",
                "departureTimestamp": 1713521340,
                "delay": 3,
                "platform": "F",
                "prognosis": {
                    "platform": null,
                    "arrival": "2024-04-19T12:15:32+0200",
                    "departure": "2024-04-19T12:12:00+0200",
                    "capacity1st": null,
                    "capacity2nd": null
                },
                "realtimeAvailability": null,
                "location": {
                    "id": "8592899",
                    "name": null,
                    "score": null,
                    "coordinate": {
                        "type": "WGS84",
                        "x": null,
                        "y": null
                    },
                    "distance": null
                }
            },
            "name": "315188",
            "category": "B",
            "subcategory": null,
            "categoryCode": null,
            "number": "3",
            "operator": "TPG",
            "to": "Grand-Saconnex, Giacometti",
            "passList": [
                {
                    "station": {
                        "id": "8592899",
                        "name": null,
                        "score": null,
                        "coordinate": {
                            "type": "WGS84",
                            "x": null,
                            "y": null
                        },
                        "distance": null
                    },
                    "arrival": null,
                    "arrivalTimestamp": null,
                    "departure": "2024-04-19T12:09:00+0200",
                    "departureTimestamp": 1713521340,
                    "delay": 3,
                    "platform": "F",
                    "prognosis": {
                        "platform": null,
                        "arrival": "2024-04-19T12:15:32+0200",
                        "departure": "2024-04-19T12:12:00+0200",
                        "capacity1st": null,
                        "capacity2nd": null
                    },
                    "realtimeAvailability": null,
                    "location": {
                        "id": "8592899",
                        "name": null,
                        "score": null,
                        "coordinate": {
                            "type": "WGS84",
                            "x": null,
                            "y": null
                        },
                        "distance": null
                    }
                }
            ],
            "capacity1st": null,
            "capacity2nd": null
        }"#;
    let j: Journey = Journey::from_json_text(test_data).unwrap();

    assert_eq!(j, expected);

    let expected = Journey {
        name: Some(String::from("000567")),
        category: String::from("IC"),
        category_code: None,
        number: Some(String::from("3")),
        operator: String::from("SBB"),
        to: String::from("Chur"),
        capacity1st: None,
        capacity2nd: None,
        pass_list: vec![Stop {
            station: Location {
                id: Some(String::from("8509000")),
                name: None,
                score: None,
                coordinate: Coordinate { kind: String::from("WGS84"), x: None, y: None },
                distance: None,
            },
            arrival: None,
            departure: Some(ts(2024, 4, 23, 11, 38, 0, 120)),
            delay: Some(0),
            platform: Some(String::from("8")),
            prognosis: Some(prognosis_zurich()),
        }],
    };
    let test_data = r#"{
            "stop": {
                "station": {
                    "id": "8503000",
                    "name": "Zürich HB",
                    "score": null,
                    "coordinate": {
                        "type": "WGS84",
                        "x": 47.377847,
                        "y": 8.540502
                    },
                    "distance": null
                },
                "arrival": null,
                "arrivalTimestamp": null,
                "departure": "2024-04-23T11:38:00+0200",
                "departureTimestamp": 1713865080,
                "delay": 0,
                "platform": "8",
                "prognosis": {
                    "platform": null,
                    "arrival": null,
                    "departure": "2024-04-23T11:38:00+0200",
                    "capacity1st": null,
                    "capacity2nd": null
                },
                "realtimeAvailability": null,
                "location": {
                    "id": "8509000",
                    "name": null,
                    "score": null,
                    "coordinate": {
                        "type": "WGS84",
                        "x": null,
                        "y": null
                    },
                    "distance": null
                }
            },
            "name": "000567",
            "category": "IC",
            "subcategory": null,
            "categoryCode": null,
            "number": "3",
            "operator": "SBB",
            "to": "Chur",
            "passList": [
                {
                    "station": {
                        "id": "8509000",
                        "name": null,
                        "score": null,
                        "coordinate": {
                            "type": "WGS84",
                            "x": null,
                            "y": null
                        },
                        "distance": null
                    },
                    "arrival": null,
                    "arrivalTimestamp": null,
                    "departure": "2024-04-23T11:38:00+0200",
                    "departureTimestamp": 1713865080,
                    "delay": 0,
                    "platform": "8",
                    "prognosis": {
                        "platform": null,
                        "arrival": null,
                        "departure": "2024-04-23T11:38:00+0200",
                        "capacity1st": null,
                        "capacity2nd": null
                    },
                    "realtimeAvailability": null,
                    "location": {
                        "id": "8509000",
                        "name": null,
                        "score": null,
                        "coordinate": {
                            "type": "WGS84",
                            "x": null,
                            "y": null
                        },
                        "distance": null
                    }
                }],
            "capacity1st": null,
            "capacity2nd": null
        }"#;
    let j: Journey = Journey::from_json_text(test_data).unwrap();

    assert_eq!(j, expected)
}

#[test]
fn unknown_members_are_ignored() {
    let with_extras = r#"{
        "type": "WGS84",
        "x": 46.209751,
        "y": 6.14242,
        "subcategory": null,
        "somethingNew": [1, 2, {"deep": true}]
    }"#;
    let c = Coordinate::from_json_text(with_extras).unwrap();
    assert_eq!(c, coordinate_geneva());
}

#[test]
fn missing_required_member_is_a_schema_error() {
    let no_kind = r#"{"x": 1.5, "y": 2.5}"#;
    assert_eq!(Coordinate::from_json_text(no_kind), Err(ApiError::Schema));

    let no_to = r#"{
        "name": null, "category": "B", "categoryCode": null, "number": "3",
        "operator": "TPG", "capacity1st": null, "capacity2nd": null, "passList": []
    }"#;
    assert_eq!(Journey::from_json_text(no_to), Err(ApiError::Schema));

    let no_pass_list = r#"{
        "name": null, "category": "B", "categoryCode": null, "number": "3",
        "operator": "TPG", "to": "Chur", "capacity1st": null, "capacity2nd": null
    }"#;
    assert_eq!(Journey::from_json_text(no_pass_list), Err(ApiError::Schema));
}

#[test]
fn wrong_member_shape_is_a_schema_error() {
    let fractional_delay = r#"{
        "station": {"id": null, "name": null, "score": null,
            "coordinate": {"type": "WGS84", "x": null, "y": null}, "distance": null},
        "arrival": null, "departure": null, "delay": 1.5, "platform": null, "prognosis": null
    }"#;
    assert_eq!(Stop::from_json_text(fractional_delay), Err(ApiError::Schema));

    let text_delay = fractional_delay.replace("1.5", "\"3\"");
    assert_eq!(Stop::from_json_text(&text_delay), Err(ApiError::Schema));

    let bad_timestamp = fractional_delay.replace("\"delay\": 1.5", "\"delay\": 3").replace(
        "\"departure\": null",
        "\"departure\": \"2024-04-19 12:09\"",
    );
    assert_eq!(Stop::from_json_text(&bad_timestamp), Err(ApiError::Schema));
}

#[test]
fn text_that_is_not_json_is_a_schema_error() {
    assert_eq!(StationBoardResponse::from_json_text("not json"), Err(ApiError::Schema));
    assert_eq!(StationBoardResponse::from_json_text(""), Err(ApiError::Schema));
    assert_eq!(StationBoardResponse::from_json_text("[1, 2, 3]"), Err(ApiError::Schema));
}

#[test]
fn negative_delay_decodes() {
    let early = r#"{
        "station": {"id": null, "name": null, "score": null,
            "coordinate": {"type": "WGS84", "x": null, "y": null}, "distance": null},
        "arrival": null, "departure": null, "delay": -2, "platform": null, "prognosis": null
    }"#;
    let s = Stop::from_json_text(early).unwrap();
    assert_eq!(s.delay, Some(-2));
}
