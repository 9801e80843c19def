use vstd::prelude::*;
use crate::digits::{parse_i32_str, parse_u32_str, spec_parse_i32, spec_parse_u32};
use crate::errors::ApiError;
use crate::json::{
    arr_elems_view, fields_view, json_view, lemma_arr_view, lemma_obj_view, lookup_field, obj_get,
    Json, JsonV,
};
use crate::model::{
    Coordinate, CoordinateV, Journey, JourneyV, Location, LocationV, Prognosis, PrognosisV,
    StationBoardElement, StationBoardElementV, StationBoardResponse, StationBoardResponseV, Stop,
    StopV,
};
use crate::timestamp::{spec_parse_timestamp, Timestamp};

verus! {

/// The image of a decode result under the payload's view.
pub open spec fn res_view<T: View>(r: Result<T, ApiError>) -> Result<T::V, ApiError> {
    match r {
        Ok(v) => Ok(v@),
        Err(e) => Err(e),
    }
}

pub open spec fn opt_str_res_view(r: Result<Option<String>, ApiError>) -> Result<
    Option<Seq<char>>,
    ApiError,
> {
    match r {
        Ok(Some(s)) => Ok(Some(s@)),
        Ok(None) => Ok(None),
        Err(e) => Err(e),
    }
}

// ---------------------------------------------------------------------------
// What one field of an object decodes to. A field is absent when no member
// carries its name or the member is `null`; a present field of the wrong
// shape refuses the document.
// ---------------------------------------------------------------------------
/// An optional string field.
pub open spec fn opt_string_field(f: Seq<(Seq<char>, JsonV)>, k: Seq<char>) -> Result<
    Option<Seq<char>>,
    ApiError,
> {
    match lookup_field(f, k) {
        None => Ok(None),
        Some(JsonV::Null) => Ok(None),
        Some(JsonV::Str(s)) => Ok(Some(s)),
        Some(_) => Err(ApiError::Schema),
    }
}

/// An optional number field, kept as its decimal token.
pub open spec fn opt_num_field(f: Seq<(Seq<char>, JsonV)>, k: Seq<char>) -> Result<
    Option<Seq<char>>,
    ApiError,
> {
    match lookup_field(f, k) {
        None => Ok(None),
        Some(JsonV::Null) => Ok(None),
        Some(JsonV::Num(t)) => Ok(Some(t)),
        Some(_) => Err(ApiError::Schema),
    }
}

/// An optional unsigned integer field.
pub open spec fn opt_u32_field(f: Seq<(Seq<char>, JsonV)>, k: Seq<char>) -> Result<
    Option<u32>,
    ApiError,
> {
    match lookup_field(f, k) {
        None => Ok(None),
        Some(JsonV::Null) => Ok(None),
        Some(JsonV::Num(t)) => match spec_parse_u32(t) {
            Some(v) => Ok(Some(v)),
            None => Err(ApiError::Schema),
        },
        Some(_) => Err(ApiError::Schema),
    }
}

/// An optional signed integer field.
pub open spec fn opt_i32_field(f: Seq<(Seq<char>, JsonV)>, k: Seq<char>) -> Result<
    Option<i32>,
    ApiError,
> {
    match lookup_field(f, k) {
        None => Ok(None),
        Some(JsonV::Null) => Ok(None),
        Some(JsonV::Num(t)) => match spec_parse_i32(t) {
            Some(v) => Ok(Some(v)),
            None => Err(ApiError::Schema),
        },
        Some(_) => Err(ApiError::Schema),
    }
}

/// An optional timestamp field, written as a string in the wire format.
pub open spec fn opt_timestamp_field(f: Seq<(Seq<char>, JsonV)>, k: Seq<char>) -> Result<
    Option<Timestamp>,
    ApiError,
> {
    match lookup_field(f, k) {
        None => Ok(None),
        Some(JsonV::Null) => Ok(None),
        Some(JsonV::Str(s)) => match spec_parse_timestamp(s) {
            Some(t) => Ok(Some(t)),
            None => Err(ApiError::Schema),
        },
        Some(_) => Err(ApiError::Schema),
    }
}

/// A required string field: absence refuses the document.
pub open spec fn req_string_field(f: Seq<(Seq<char>, JsonV)>, k: Seq<char>) -> Result<
    Seq<char>,
    ApiError,
> {
    match lookup_field(f, k) {
        Some(JsonV::Str(s)) => Ok(s),
        _ => Err(ApiError::Schema),
    }
}

// ---------------------------------------------------------------------------
// What a document decodes to, entity by entity. Members with other names
// than the ones read here are ignored.
// ---------------------------------------------------------------------------
pub open spec fn decode_coordinate(j: JsonV) -> Result<CoordinateV, ApiError> {
    match j {
        JsonV::Obj(f) => {
            if req_string_field(f, "type"@) is Err || opt_num_field(f, "x"@) is Err || opt_num_field(
                f,
                "y"@,
            ) is Err {
                Err(ApiError::Schema)
            } else {
                Ok(
                    CoordinateV {
                        kind: req_string_field(f, "type"@)->Ok_0,
                        x: opt_num_field(f, "x"@)->Ok_0,
                        y: opt_num_field(f, "y"@)->Ok_0,
                    },
                )
            }
        },
        _ => Err(ApiError::Schema),
    }
}

pub open spec fn decode_location(j: JsonV) -> Result<LocationV, ApiError> {
    match j {
        JsonV::Obj(f) => {
            let coord = match lookup_field(f, "coordinate"@) {
                Some(c) => decode_coordinate(c),
                None => Err(ApiError::Schema),
            };
            if coord is Err || opt_string_field(f, "id"@) is Err || opt_string_field(f, "name"@)
                is Err || opt_num_field(f, "score"@) is Err || opt_num_field(f, "distance"@)
                is Err {
                Err(ApiError::Schema)
            } else {
                Ok(
                    LocationV {
                        id: opt_string_field(f, "id"@)->Ok_0,
                        name: opt_string_field(f, "name"@)->Ok_0,
                        score: opt_num_field(f, "score"@)->Ok_0,
                        coordinate: coord->Ok_0,
                        distance: opt_num_field(f, "distance"@)->Ok_0,
                    },
                )
            }
        },
        _ => Err(ApiError::Schema),
    }
}

pub open spec fn decode_prognosis(j: JsonV) -> Result<PrognosisV, ApiError> {
    match j {
        JsonV::Obj(f) => {
            if opt_string_field(f, "platform"@) is Err || opt_timestamp_field(f, "departure"@)
                is Err || opt_timestamp_field(f, "arrival"@) is Err || opt_u32_field(
                f,
                "capacity1st"@,
            ) is Err || opt_u32_field(f, "capacity2nd"@) is Err {
                Err(ApiError::Schema)
            } else {
                Ok(
                    PrognosisV {
                        platform: opt_string_field(f, "platform"@)->Ok_0,
                        departure: opt_timestamp_field(f, "departure"@)->Ok_0,
                        arrival: opt_timestamp_field(f, "arrival"@)->Ok_0,
                        capacity1st: opt_u32_field(f, "capacity1st"@)->Ok_0,
                        capacity2nd: opt_u32_field(f, "capacity2nd"@)->Ok_0,
                    },
                )
            }
        },
        _ => Err(ApiError::Schema),
    }
}

/// An optional nested prognosis.
pub open spec fn opt_prognosis_field(f: Seq<(Seq<char>, JsonV)>, k: Seq<char>) -> Result<
    Option<PrognosisV>,
    ApiError,
> {
    match lookup_field(f, k) {
        None => Ok(None),
        Some(JsonV::Null) => Ok(None),
        Some(p) => match decode_prognosis(p) {
            Ok(v) => Ok(Some(v)),
            Err(e) => Err(e),
        },
    }
}

pub open spec fn decode_stop(j: JsonV) -> Result<StopV, ApiError> {
    match j {
        JsonV::Obj(f) => {
            let station = match lookup_field(f, "station"@) {
                Some(c) => decode_location(c),
                None => Err(ApiError::Schema),
            };
            if station is Err || opt_timestamp_field(f, "arrival"@) is Err || opt_timestamp_field(
                f,
                "departure"@,
            ) is Err || opt_i32_field(f, "delay"@) is Err || opt_string_field(f, "platform"@)
                is Err || opt_prognosis_field(f, "prognosis"@) is Err {
                Err(ApiError::Schema)
            } else {
                Ok(
                    StopV {
                        station: station->Ok_0,
                        arrival: opt_timestamp_field(f, "arrival"@)->Ok_0,
                        departure: opt_timestamp_field(f, "departure"@)->Ok_0,
                        delay: opt_i32_field(f, "delay"@)->Ok_0,
                        platform: opt_string_field(f, "platform"@)->Ok_0,
                        prognosis: opt_prognosis_field(f, "prognosis"@)->Ok_0,
                    },
                )
            }
        },
        _ => Err(ApiError::Schema),
    }
}

pub open spec fn decode_stops(s: Seq<JsonV>) -> Result<Seq<StopV>, ApiError> {
    if forall|i: int| 0 <= i < s.len() ==> (#[trigger] decode_stop(s[i])) is Ok {
        Ok(Seq::new(s.len(), |i: int| decode_stop(s[i])->Ok_0))
    } else {
        Err(ApiError::Schema)
    }
}

/// Decodes a journey from the members of the object that carries it; on the
/// wire those members stand beside others, flattened into the board's
/// element object.
pub open spec fn decode_journey_fields(f: Seq<(Seq<char>, JsonV)>) -> Result<JourneyV, ApiError> {
    let stops = match lookup_field(f, "passList"@) {
        Some(JsonV::Arr(a)) => decode_stops(a),
        _ => Err(ApiError::Schema),
    };
    if stops is Err || opt_string_field(f, "name"@) is Err || req_string_field(f, "category"@)
        is Err || opt_string_field(f, "categoryCode"@) is Err || opt_string_field(f, "number"@)
        is Err || req_string_field(f, "operator"@) is Err || req_string_field(f, "to"@) is Err
        || opt_u32_field(f, "capacity1st"@) is Err || opt_u32_field(f, "capacity2nd"@) is Err {
        Err(ApiError::Schema)
    } else {
        Ok(
            JourneyV {
                name: opt_string_field(f, "name"@)->Ok_0,
                category: req_string_field(f, "category"@)->Ok_0,
                category_code: opt_string_field(f, "categoryCode"@)->Ok_0,
                number: opt_string_field(f, "number"@)->Ok_0,
                operator: req_string_field(f, "operator"@)->Ok_0,
                to: req_string_field(f, "to"@)->Ok_0,
                capacity1st: opt_u32_field(f, "capacity1st"@)->Ok_0,
                capacity2nd: opt_u32_field(f, "capacity2nd"@)->Ok_0,
                pass_list: stops->Ok_0,
            },
        )
    }
}

pub open spec fn decode_journey(j: JsonV) -> Result<JourneyV, ApiError> {
    match j {
        JsonV::Obj(f) => decode_journey_fields(f),
        _ => Err(ApiError::Schema),
    }
}

pub open spec fn decode_element(j: JsonV) -> Result<StationBoardElementV, ApiError> {
    match j {
        JsonV::Obj(f) => {
            let stop = match lookup_field(f, "stop"@) {
                Some(s) => decode_stop(s),
                None => Err(ApiError::Schema),
            };
            let journey = decode_journey_fields(f);
            if stop is Err || journey is Err {
                Err(ApiError::Schema)
            } else {
                Ok(StationBoardElementV { stop: stop->Ok_0, journey: journey->Ok_0 })
            }
        },
        _ => Err(ApiError::Schema),
    }
}

pub open spec fn decode_elements(s: Seq<JsonV>) -> Result<Seq<StationBoardElementV>, ApiError> {
    if forall|i: int| 0 <= i < s.len() ==> (#[trigger] decode_element(s[i])) is Ok {
        Ok(Seq::new(s.len(), |i: int| decode_element(s[i])->Ok_0))
    } else {
        Err(ApiError::Schema)
    }
}

pub open spec fn decode_response(j: JsonV) -> Result<StationBoardResponseV, ApiError> {
    match j {
        JsonV::Obj(f) => {
            let station = match lookup_field(f, "station"@) {
                Some(s) => decode_location(s),
                None => Err(ApiError::Schema),
            };
            let board = match lookup_field(f, "stationboard"@) {
                Some(JsonV::Arr(a)) => decode_elements(a),
                _ => Err(ApiError::Schema),
            };
            if station is Err || board is Err {
                Err(ApiError::Schema)
            } else {
                Ok(
                    StationBoardResponseV {
                        station: station->Ok_0,
                        stationboard: board->Ok_0,
                    },
                )
            }
        },
        _ => Err(ApiError::Schema),
    }
}

// ---------------------------------------------------------------------------
// Whatever decodes carries only well-formed timestamps: the wire format
// cannot write any other. Extraction and re-encoding rely on this.
// ---------------------------------------------------------------------------
pub proof fn lemma_opt_timestamp_field_wf(f: Seq<(Seq<char>, JsonV)>, k: Seq<char>)
    ensures
        opt_timestamp_field(f, k) matches Ok(Some(t)) ==> t.wf(),
{
    match lookup_field(f, k) {
        Some(JsonV::Str(s)) => {
            crate::timestamp::lemma_parse_timestamp_wf(s);
        },
        _ => {},
    }
}

pub proof fn lemma_decode_prognosis_wf(j: JsonV)
    ensures
        decode_prognosis(j) matches Ok(p) ==> p.wf(),
{
    match j {
        JsonV::Obj(f) => {
            lemma_opt_timestamp_field_wf(f, "departure"@);
            lemma_opt_timestamp_field_wf(f, "arrival"@);
        },
        _ => {},
    }
}

pub proof fn lemma_decode_stop_wf(j: JsonV)
    ensures
        decode_stop(j) matches Ok(s) ==> s.wf(),
{
    match j {
        JsonV::Obj(f) => {
            lemma_opt_timestamp_field_wf(f, "arrival"@);
            lemma_opt_timestamp_field_wf(f, "departure"@);
            match lookup_field(f, "prognosis"@) {
                Some(p) => {
                    lemma_decode_prognosis_wf(p);
                },
                None => {},
            }
        },
        _ => {},
    }
}

pub proof fn lemma_decode_journey_fields_wf(f: Seq<(Seq<char>, JsonV)>)
    ensures
        decode_journey_fields(f) matches Ok(jn) ==> jn.wf(),
{
    match lookup_field(f, "passList"@) {
        Some(JsonV::Arr(a)) => {
            if decode_journey_fields(f) is Ok {
                assert forall|i: int|
                    0 <= i < a.len() implies (#[trigger] decode_stops(a)->Ok_0[i]).wf() by {
                    lemma_decode_stop_wf(a[i]);
                }
            }
        },
        _ => {},
    }
}

pub proof fn lemma_decode_element_wf(j: JsonV)
    ensures
        decode_element(j) matches Ok(e) ==> e.wf(),
{
    match j {
        JsonV::Obj(f) => {
            match lookup_field(f, "stop"@) {
                Some(s) => {
                    lemma_decode_stop_wf(s);
                },
                None => {},
            }
            lemma_decode_journey_fields_wf(f);
        },
        _ => {},
    }
}

/// Whatever `decode_response` accepts is a well-formed model value.
pub proof fn lemma_decode_response_wf(j: JsonV)
    ensures
        decode_response(j) matches Ok(r) ==> r.wf(),
{
    match j {
        JsonV::Obj(f) => {
            match lookup_field(f, "stationboard"@) {
                Some(JsonV::Arr(a)) => {
                    if decode_response(j) is Ok {
                        assert forall|i: int|
                            0 <= i < a.len() implies (#[trigger] decode_elements(
                            a,
                        )->Ok_0[i]).wf() by {
                            lemma_decode_element_wf(a[i]);
                        }
                    }
                },
                _ => {},
            }
        },
        _ => {},
    }
}

// ---------------------------------------------------------------------------
// Executable decoding.
// ---------------------------------------------------------------------------
fn get_opt_string(f: &Vec<(String, Json)>, k: &str) -> (r: Result<Option<String>, ApiError>)
    ensures
        opt_str_res_view(r) == opt_string_field(fields_view(f@), k@),
{
    match obj_get(f, k) {
        None => Ok(None),
        Some(j) => match j {
            Json::Null => Ok(None),
            Json::Str(s) => Ok(Some(s.clone())),
            _ => Err(ApiError::Schema),
        },
    }
}

fn get_opt_num(f: &Vec<(String, Json)>, k: &str) -> (r: Result<Option<String>, ApiError>)
    ensures
        opt_str_res_view(r) == opt_num_field(fields_view(f@), k@),
{
    match obj_get(f, k) {
        None => Ok(None),
        Some(j) => match j {
            Json::Null => Ok(None),
            Json::Num(t) => Ok(Some(t.clone())),
            _ => Err(ApiError::Schema),
        },
    }
}

fn get_opt_u32(f: &Vec<(String, Json)>, k: &str) -> (r: Result<Option<u32>, ApiError>)
    ensures
        r == opt_u32_field(fields_view(f@), k@),
{
    match obj_get(f, k) {
        None => Ok(None),
        Some(j) => match j {
            Json::Null => Ok(None),
            Json::Num(t) => match parse_u32_str(t.as_str()) {
                Some(v) => Ok(Some(v)),
                None => Err(ApiError::Schema),
            },
            _ => Err(ApiError::Schema),
        },
    }
}

fn get_opt_i32(f: &Vec<(String, Json)>, k: &str) -> (r: Result<Option<i32>, ApiError>)
    ensures
        r == opt_i32_field(fields_view(f@), k@),
{
    match obj_get(f, k) {
        None => Ok(None),
        Some(j) => match j {
            Json::Null => Ok(None),
            Json::Num(t) => match parse_i32_str(t.as_str()) {
                Some(v) => Ok(Some(v)),
                None => Err(ApiError::Schema),
            },
            _ => Err(ApiError::Schema),
        },
    }
}

fn get_opt_timestamp(f: &Vec<(String, Json)>, k: &str) -> (r: Result<Option<Timestamp>, ApiError>)
    ensures
        r == opt_timestamp_field(fields_view(f@), k@),
{
    match obj_get(f, k) {
        None => Ok(None),
        Some(j) => match j {
            Json::Null => Ok(None),
            Json::Str(s) => match Timestamp::parse_str(s.as_str()) {
                Some(t) => Ok(Some(t)),
                None => Err(ApiError::Schema),
            },
            _ => Err(ApiError::Schema),
        },
    }
}

fn get_req_string(f: &Vec<(String, Json)>, k: &str) -> (r: Result<String, ApiError>)
    ensures
        res_view(r) == req_string_field(fields_view(f@), k@),
{
    match obj_get(f, k) {
        Some(j) => match j {
            Json::Str(s) => Ok(s.clone()),
            _ => Err(ApiError::Schema),
        },
        None => Err(ApiError::Schema),
    }
}

impl Coordinate {
    /// Decodes a coordinate object; members of other names are ignored.
    pub fn decode_json(j: &Json) -> (r: Result<Coordinate, ApiError>)
        ensures
            res_view(r) == decode_coordinate(j@),
    {
        match j {
            Json::Obj(fields) => {
                proof {
                    lemma_obj_view(*fields);
                }
                let kind = match get_req_string(fields, "type") {
                    Ok(v) => v,
                    Err(_) => return Err(ApiError::Schema),
                };
                let x = match get_opt_num(fields, "x") {
                    Ok(v) => v,
                    Err(_) => return Err(ApiError::Schema),
                };
                let y = match get_opt_num(fields, "y") {
                    Ok(v) => v,
                    Err(_) => return Err(ApiError::Schema),
                };
                Ok(Coordinate { kind, x, y })
            },
            _ => Err(ApiError::Schema),
        }
    }
}

impl Location {
    /// Decodes a location object; members of other names are ignored.
    pub fn decode_json(j: &Json) -> (r: Result<Location, ApiError>)
        ensures
            res_view(r) == decode_location(j@),
    {
        match j {
            Json::Obj(fields) => {
                proof {
                    lemma_obj_view(*fields);
                }
                let coordinate = match obj_get(fields, "coordinate") {
                    Some(cj) => match Coordinate::decode_json(cj) {
                        Ok(c) => c,
                        Err(_) => return Err(ApiError::Schema),
                    },
                    None => return Err(ApiError::Schema),
                };
                let id = match get_opt_string(fields, "id") {
                    Ok(v) => v,
                    Err(_) => return Err(ApiError::Schema),
                };
                let name = match get_opt_string(fields, "name") {
                    Ok(v) => v,
                    Err(_) => return Err(ApiError::Schema),
                };
                let score = match get_opt_num(fields, "score") {
                    Ok(v) => v,
                    Err(_) => return Err(ApiError::Schema),
                };
                let distance = match get_opt_num(fields, "distance") {
                    Ok(v) => v,
                    Err(_) => return Err(ApiError::Schema),
                };
                Ok(Location { id, name, score, coordinate, distance })
            },
            _ => Err(ApiError::Schema),
        }
    }
}

impl Prognosis {
    /// Decodes a prognosis object; members of other names are ignored.
    pub fn decode_json(j: &Json) -> (r: Result<Prognosis, ApiError>)
        ensures
            res_view(r) == decode_prognosis(j@),
    {
        match j {
            Json::Obj(fields) => {
                proof {
                    lemma_obj_view(*fields);
                }
                let platform = match get_opt_string(fields, "platform") {
                    Ok(v) => v,
                    Err(_) => return Err(ApiError::Schema),
                };
                let departure = match get_opt_timestamp(fields, "departure") {
                    Ok(v) => v,
                    Err(_) => return Err(ApiError::Schema),
                };
                let arrival = match get_opt_timestamp(fields, "arrival") {
                    Ok(v) => v,
                    Err(_) => return Err(ApiError::Schema),
                };
                let capacity1st = match get_opt_u32(fields, "capacity1st") {
                    Ok(v) => v,
                    Err(_) => return Err(ApiError::Schema),
                };
                let capacity2nd = match get_opt_u32(fields, "capacity2nd") {
                    Ok(v) => v,
                    Err(_) => return Err(ApiError::Schema),
                };
                Ok(Prognosis { platform, departure, arrival, capacity1st, capacity2nd })
            },
            _ => Err(ApiError::Schema),
        }
    }
}

impl Stop {
    /// Decodes a stop object; members of other names are ignored.
    pub fn decode_json(j: &Json) -> (r: Result<Stop, ApiError>)
        ensures
            res_view(r) == decode_stop(j@),
    {
        match j {
            Json::Obj(fields) => {
                proof {
                    lemma_obj_view(*fields);
                }
                let station = match obj_get(fields, "station") {
                    Some(sj) => match Location::decode_json(sj) {
                        Ok(l) => l,
                        Err(_) => return Err(ApiError::Schema),
                    },
                    None => return Err(ApiError::Schema),
                };
                let arrival = match get_opt_timestamp(fields, "arrival") {
                    Ok(v) => v,
                    Err(_) => return Err(ApiError::Schema),
                };
                let departure = match get_opt_timestamp(fields, "departure") {
                    Ok(v) => v,
                    Err(_) => return Err(ApiError::Schema),
                };
                let delay = match get_opt_i32(fields, "delay") {
                    Ok(v) => v,
                    Err(_) => return Err(ApiError::Schema),
                };
                let platform = match get_opt_string(fields, "platform") {
                    Ok(v) => v,
                    Err(_) => return Err(ApiError::Schema),
                };
                let prognosis = match obj_get(fields, "prognosis") {
                    None => None,
                    Some(pj) => match pj {
                        Json::Null => None,
                        _ => match Prognosis::decode_json(pj) {
                            Ok(p) => Some(p),
                            Err(_) => return Err(ApiError::Schema),
                        },
                    },
                };
                Ok(Stop { station, arrival, departure, delay, platform, prognosis })
            },
            _ => Err(ApiError::Schema),
        }
    }
}

impl Journey {
    /// Decodes a journey from an object's members; the object may carry
    /// members of other names, the flattened wire shape relies on that.
    #[verifier::loop_isolation(false)]
    pub fn decode_fields(fields: &Vec<(String, Json)>) -> (r: Result<Journey, ApiError>)
        ensures
            res_view(r) == decode_journey_fields(fields_view(fields@)),
    {
        let arr = match obj_get(fields, "passList") {
            Some(pj) => match pj {
                Json::Arr(a) => a,
                _ => return Err(ApiError::Schema),
            },
            None => return Err(ApiError::Schema),
        };
        proof {
            lemma_arr_view(*arr);
        }
        let ghost av = arr_elems_view(arr@);
        let mut pass_list: Vec<Stop> = Vec::new();
        let mut i: usize = 0;
        while i < arr.len()
            invariant
                av == arr_elems_view(arr@),
                av.len() == arr@.len(),
                0 <= i <= arr@.len(),
                pass_list@.len() == i,
                forall|k: int| 0 <= k < i ==> (#[trigger] decode_stop(av[k])) is Ok,
                forall|k: int| 0 <= k < i ==> (#[trigger] pass_list@[k])@ == decode_stop(av[k])->Ok_0,
            decreases arr@.len() - i,
        {
            match Stop::decode_json(&arr[i]) {
                Ok(s) => {
                    pass_list.push(s);
                },
                Err(_) => {
                    proof {
                        assert(!(forall|k: int|
                            0 <= k < av.len() ==> (#[trigger] decode_stop(av[k])) is Ok)) by {
                            assert(!(decode_stop(av[i as int]) is Ok));
                        }
                    }
                    return Err(ApiError::Schema);
                },
            }
            i = i + 1;
        }
        let ghost stops = decode_stops(av);
        proof {
            assert(stops is Ok);
            assert(stops->Ok_0 =~= Seq::new(av.len(), |k: int| decode_stop(av[k])->Ok_0));
        }
        let name = match get_opt_string(fields, "name") {
            Ok(v) => v,
            Err(_) => return Err(ApiError::Schema),
        };
        let category = match get_req_string(fields, "category") {
            Ok(v) => v,
            Err(_) => return Err(ApiError::Schema),
        };
        let category_code = match get_opt_string(fields, "categoryCode") {
            Ok(v) => v,
            Err(_) => return Err(ApiError::Schema),
        };
        let number = match get_opt_string(fields, "number") {
            Ok(v) => v,
            Err(_) => return Err(ApiError::Schema),
        };
        let operator = match get_req_string(fields, "operator") {
            Ok(v) => v,
            Err(_) => return Err(ApiError::Schema),
        };
        let to = match get_req_string(fields, "to") {
            Ok(v) => v,
            Err(_) => return Err(ApiError::Schema),
        };
        let capacity1st = match get_opt_u32(fields, "capacity1st") {
            Ok(v) => v,
            Err(_) => return Err(ApiError::Schema),
        };
        let capacity2nd = match get_opt_u32(fields, "capacity2nd") {
            Ok(v) => v,
            Err(_) => return Err(ApiError::Schema),
        };
        let r = Journey {
            name,
            category,
            category_code,
            number,
            operator,
            to,
            capacity1st,
            capacity2nd,
            pass_list,
        };
        proof {
            assert(r@.pass_list =~= stops->Ok_0);
        }
        Ok(r)
    }

    /// Decodes a journey object.
    pub fn decode_json(j: &Json) -> (r: Result<Journey, ApiError>)
        ensures
            res_view(r) == decode_journey(j@),
    {
        match j {
            Json::Obj(fields) => {
                proof {
                    lemma_obj_view(*fields);
                }
                Journey::decode_fields(fields)
            },
            _ => Err(ApiError::Schema),
        }
    }
}

impl StationBoardElement {
    /// Decodes one board entry: the stop under `stop`, the journey from
    /// the same flat object.
    pub fn decode_json(j: &Json) -> (r: Result<StationBoardElement, ApiError>)
        ensures
            res_view(r) == decode_element(j@),
    {
        match j {
            Json::Obj(fields) => {
                proof {
                    lemma_obj_view(*fields);
                }
                let stop = match obj_get(fields, "stop") {
                    Some(sj) => match Stop::decode_json(sj) {
                        Ok(s) => s,
                        Err(_) => return Err(ApiError::Schema),
                    },
                    None => return Err(ApiError::Schema),
                };
                let journey = match Journey::decode_fields(fields) {
                    Ok(jn) => jn,
                    Err(_) => return Err(ApiError::Schema),
                };
                Ok(StationBoardElement { stop, journey })
            },
            _ => Err(ApiError::Schema),
        }
    }
}

impl StationBoardResponse {
    /// Decodes a whole stationboard answer.
    #[verifier::loop_isolation(false)]
    pub fn decode_json(j: &Json) -> (r: Result<StationBoardResponse, ApiError>)
        ensures
            res_view(r) == decode_response(j@),
    {
        match j {
            Json::Obj(fields) => {
                proof {
                    lemma_obj_view(*fields);
                }
                let station = match obj_get(fields, "station") {
                    Some(sj) => match Location::decode_json(sj) {
                        Ok(l) => l,
                        Err(_) => return Err(ApiError::Schema),
                    },
                    None => return Err(ApiError::Schema),
                };
                let arr = match obj_get(fields, "stationboard") {
                    Some(bj) => match bj {
                        Json::Arr(a) => a,
                        _ => return Err(ApiError::Schema),
                    },
                    None => return Err(ApiError::Schema),
                };
                proof {
                    lemma_arr_view(*arr);
                }
                let ghost av = arr_elems_view(arr@);
                let mut stationboard: Vec<StationBoardElement> = Vec::new();
                let mut i: usize = 0;
                while i < arr.len()
                    invariant
                        av == arr_elems_view(arr@),
                        av.len() == arr@.len(),
                        0 <= i <= arr@.len(),
                        stationboard@.len() == i,
                        forall|k: int| 0 <= k < i ==> (#[trigger] decode_element(av[k])) is Ok,
                        forall|k: int|
                            0 <= k < i ==> (#[trigger] stationboard@[k])@ == decode_element(
                                av[k],
                            )->Ok_0,
                    decreases arr@.len() - i,
                {
                    match StationBoardElement::decode_json(&arr[i]) {
                        Ok(e) => {
                            stationboard.push(e);
                        },
                        Err(_) => {
                            proof {
                                assert(!(forall|k: int|
                                    0 <= k < av.len() ==> (#[trigger] decode_element(av[k]))
                                        is Ok)) by {
                                    assert(!(decode_element(av[i as int]) is Ok));
                                }
                            }
                            return Err(ApiError::Schema);
                        },
                    }
                    i = i + 1;
                }
                let ghost elems = decode_elements(av);
                proof {
                    assert(elems is Ok);
                    assert(elems->Ok_0 =~= Seq::new(
                        av.len(),
                        |k: int| decode_element(av[k])->Ok_0,
                    ));
                }
                let r = StationBoardResponse { station, stationboard };
                proof {
                    assert(r@.stationboard =~= elems->Ok_0);
                }
                Ok(r)
            },
            _ => Err(ApiError::Schema),
        }
    }
}

} // verus!
