use stationboard::errors::{ApiError, DisplayField};
use stationboard::extract::{render_lines, LineInfo};
use stationboard::model::{
    Coordinate, Journey, Location, StationBoardElement, StationBoardResponse, Stop,
};
use stationboard::timestamp::Timestamp;

fn somewhere() -> Location {
    Location {
        id: None,
        name: None,
        score: None,
        coordinate: Coordinate { kind: String::from("WGS84"), x: None, y: None },
        distance: None,
    }
}

fn element(number: u32, departure: Option<&str>, delay: Option<i32>) -> StationBoardElement {
    StationBoardElement {
        stop: Stop {
            station: somewhere(),
            arrival: None,
            departure: departure.map(|d| Timestamp::parse_str(d).unwrap()),
            delay,
            platform: None,
            prognosis: None,
        },
        journey: Journey {
            name: None,
            category: String::from("B"),
            category_code: None,
            number: Some(number.to_string()),
            operator: String::from("TPG"),
            to: format!("Destination {}", number),
            capacity1st: None,
            capacity2nd: None,
            pass_list: Vec::new(),
        },
    }
}

fn board(elements: Vec<StationBoardElement>) -> StationBoardResponse {
    StationBoardResponse { station: somewhere(), stationboard: elements }
}

#[test]
fn five_of_eight_in_order() {
    let mut elements = Vec::new();
    for i in 0..8u32 {
        elements.push(element(i, Some("2024-04-19T12:09:00+0200"), Some(i as i32)));
    }
    let lines = board(elements).extract_lines(5).unwrap();
    assert_eq!(lines.len(), 5);
    for (i, l) in lines.iter().enumerate() {
        assert_eq!(l.line_number, i.to_string());
        assert_eq!(l.direction, format!("Destination {}", i));
        assert_eq!(l.delay, i as i32);
    }
}

#[test]
fn short_board_yields_every_entry() {
    let elements = vec![
        element(7, Some("2024-04-19T08:00:00+0200"), Some(1)),
        element(8, Some("2024-04-19T09:30:00+0200"), None),
    ];
    let lines = board(elements).extract_lines(5).unwrap();
    assert_eq!(lines.len(), 2);
    assert_eq!(lines[0].normal_departure, "08:00");
    assert_eq!(lines[1].normal_departure, "09:30");
}

#[test]
fn empty_board_yields_no_lines() {
    let lines = board(Vec::new()).extract_lines(5).unwrap();
    assert!(lines.is_empty());
    assert_eq!(render_lines(&lines), "");
}

#[test]
fn a_limit_of_zero_takes_nothing() {
    let elements = vec![element(1, None, None)];
    let lines = board(elements).extract_lines(0).unwrap();
    assert!(lines.is_empty());
}

#[test]
fn missing_delay_defaults_to_zero() {
    let lines = board(vec![element(3, Some("2024-04-19T12:09:00+0200"), None)])
        .extract_lines(5)
        .unwrap();
    assert_eq!(lines[0].delay, 0);
}

#[test]
fn missing_departure_fails() {
    let elements = vec![element(1, Some("2024-04-19T12:09:00+0200"), Some(0)), element(2, None, Some(0))];
    assert_eq!(
        board(elements).extract_lines(5),
        Err(ApiError::MissingField(DisplayField::Departure))
    );
}

#[test]
fn missing_number_fails() {
    let mut e = element(1, Some("2024-04-19T12:09:00+0200"), Some(0));
    e.journey.number = None;
    assert_eq!(
        board(vec![e]).extract_lines(5),
        Err(ApiError::MissingField(DisplayField::LineNumber))
    );
}

#[test]
fn entries_past_the_limit_cannot_fail_the_run() {
    let elements = vec![element(1, Some("2024-04-19T12:09:00+0200"), Some(0)), element(2, None, Some(0))];
    let lines = board(elements).extract_lines(1).unwrap();
    assert_eq!(lines.len(), 1);
}

#[test]
fn lines_are_tab_separated() {
    let line = LineInfo {
        line_number: String::from("3"),
        direction: String::from("Grand-Saconnex, Giacometti"),
        normal_departure: String::from("12:09"),
        delay: 3,
    };
    assert_eq!(line.to_line(), "3\tGrand-Saconnex, Giacometti\t12:09\t3");
    let early = LineInfo {
        line_number: String::from("18"),
        direction: String::from("Lancy"),
        normal_departure: String::from("07:05"),
        delay: -2,
    };
    assert_eq!(early.to_line(), "18\tLancy\t07:05\t-2");
    assert_eq!(
        render_lines(&vec![line, early]),
        "3\tGrand-Saconnex, Giacometti\t12:09\t3\n18\tLancy\t07:05\t-2\n"
    );
}

#[test]
fn decode_and_extract_one_departure() {
    let body = r#"{"station":{"id":"8587057","name":"Genève, gare Cornavin","score":null,"coordinate":{"type":"WGS84","x":46.209751,"y":6.14242},"distance":null},"stationboard":[{"stop":{"station":{"id":"8587057","name":"Genève, gare Cornavin","score":null,"coordinate":{"type":"WGS84","x":46.209751,"y":6.14242},"distance":null},"arrival":null,"departure":"2024-04-19T12:09:00+0200","delay":3,"platform":"F","prognosis":null},"name":"315188","category":"B","categoryCode":null,"number":"3","operator":"TPG","to":"Grand-Saconnex, Giacometti","capacity1st":null,"capacity2nd":null,"passList":[]}]}"#;
    let response = StationBoardResponse::from_json_text(body).unwrap();
    let lines = response.extract_lines(5).unwrap();
    assert_eq!(lines.len(), 1);
    assert_eq!(lines[0].to_line(), "3\tGrand-Saconnex, Giacometti\t12:09\t3");
    assert_eq!(render_lines(&lines), "3\tGrand-Saconnex, Giacometti\t12:09\t3\n");
    let direct = StationBoardResponse::lines_from_json_text(body, 5).unwrap();
    assert_eq!(direct, lines);
}
