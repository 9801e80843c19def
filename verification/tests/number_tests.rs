use stationboard::errors::ApiError;
use stationboard::model::{Prognosis, Stop};

fn stop_with_delay(delay_token: &str) -> String {
    format!(
        r#"{{
        "station": {{"id": null, "name": null, "score": null,
            "coordinate": {{"type": "WGS84", "x": null, "y": null}}, "distance": null}},
        "arrival": null, "departure": null, "delay": {}, "platform": null, "prognosis": null
    }}"#,
        delay_token
    )
}

fn prognosis_with_capacity(token: &str) -> String {
    format!(
        r#"{{"platform": null, "arrival": null, "departure": null,
            "capacity1st": {}, "capacity2nd": null}}"#,
        token
    )
}

#[test]
fn delay_covers_the_whole_i32_range() {
    let s = Stop::from_json_text(&stop_with_delay("2147483647")).unwrap();
    assert_eq!(s.delay, Some(i32::MAX));
    let s = Stop::from_json_text(&stop_with_delay("-2147483648")).unwrap();
    assert_eq!(s.delay, Some(i32::MIN));
    assert_eq!(Stop::from_json_text(&stop_with_delay("2147483648")), Err(ApiError::Schema));
    assert_eq!(Stop::from_json_text(&stop_with_delay("-2147483649")), Err(ApiError::Schema));
}

#[test]
fn capacity_covers_the_whole_u32_range() {
    let p = Prognosis::from_json_text(&prognosis_with_capacity("4294967295")).unwrap();
    assert_eq!(p.capacity1st, Some(u32::MAX));
    let p = Prognosis::from_json_text(&prognosis_with_capacity("0")).unwrap();
    assert_eq!(p.capacity1st, Some(0));
    assert_eq!(
        Prognosis::from_json_text(&prognosis_with_capacity("4294967296")),
        Err(ApiError::Schema)
    );
    assert_eq!(Prognosis::from_json_text(&prognosis_with_capacity("-1")), Err(ApiError::Schema));
}

#[test]
fn a_fractional_capacity_is_refused() {
    assert_eq!(Prognosis::from_json_text(&prognosis_with_capacity("1e2")), Err(ApiError::Schema));
    assert_eq!(Prognosis::from_json_text(&prognosis_with_capacity("2.5")), Err(ApiError::Schema));
}
