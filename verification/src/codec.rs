use vstd::prelude::*;
use crate::decode::{
    decode_coordinate, decode_journey, decode_location, decode_prognosis, decode_response,
    decode_stop, lemma_decode_response_wf, res_view,
};
use crate::errors::ApiError;
use crate::extract::{spec_extract, LineInfo, LineInfoV};
use crate::json::{Json, JsonV};
use crate::model::{
    Coordinate, CoordinateV, Journey, JourneyV, Location, LocationV, Prognosis, PrognosisV,
    StationBoardResponse, StationBoardResponseV, Stop, StopV,
};

verus! {

#[verifier::external_type_specification]
#[verifier::external_body]
pub struct ExValue(serde_json::Value);

/// The document that a JSON text denotes, or nothing where the text is not
/// one JSON document; what `serde_json::from_str` accepts and returns,
/// which depends on the text alone.
pub uninterp spec fn json_doc_of(s: Seq<char>) -> Option<JsonV>;

/// The converter of `parse_json_text`: carries `serde_json`'s tree over
/// into the library's, member order kept, each number as its decimal
/// token. Nothing is stated of it alone; `parse_json_text` states what the
/// composition returns.
#[verifier::external_body]
fn value_to_json(v: &serde_json::Value) -> Json {
    match v {
        serde_json::Value::Null => Json::Null,
        serde_json::Value::Bool(b) => Json::Bool(*b),
        serde_json::Value::Number(n) => Json::Num(n.to_string()),
        serde_json::Value::String(s) => Json::Str(s.clone()),
        serde_json::Value::Array(a) => Json::Arr(a.iter().map(value_to_json).collect()),
        serde_json::Value::Object(m) => {
            Json::Obj(m.iter().map(|(k, x)| (k.clone(), value_to_json(x))).collect())
        },
    }
}

/// Relies on `serde_json::from_str::<Value>`: parses one JSON document,
/// refusing any other text; the result is a function of the text alone.
#[verifier::external_body]
fn parse_json_text(s: &str) -> (r: Option<Json>)
    ensures
        (match r {
            Some(j) => json_doc_of(s@) == Some(j@),
            None => json_doc_of(s@) is None,
        }),
{
    match serde_json::from_str::<serde_json::Value>(s) {
        Ok(v) => Some(value_to_json(&v)),
        Err(_) => None,
    }
}

impl Coordinate {
    /// Decodes a coordinate from JSON text.
    pub fn from_json_text(s: &str) -> (r: Result<Coordinate, ApiError>)
        ensures
            (match json_doc_of(s@) {
                Some(j) => res_view(r) == decode_coordinate(j),
                None => res_view(r) == Err::<CoordinateV, ApiError>(ApiError::Schema),
            }),
    {
        match parse_json_text(s) {
            Some(j) => Coordinate::decode_json(&j),
            None => Err(ApiError::Schema),
        }
    }
}

impl Location {
    /// Decodes a location from JSON text.
    pub fn from_json_text(s: &str) -> (r: Result<Location, ApiError>)
        ensures
            (match json_doc_of(s@) {
                Some(j) => res_view(r) == decode_location(j),
                None => res_view(r) == Err::<LocationV, ApiError>(ApiError::Schema),
            }),
    {
        match parse_json_text(s) {
            Some(j) => Location::decode_json(&j),
            None => Err(ApiError::Schema),
        }
    }
}

impl Prognosis {
    /// Decodes a prognosis from JSON text.
    pub fn from_json_text(s: &str) -> (r: Result<Prognosis, ApiError>)
        ensures
            (match json_doc_of(s@) {
                Some(j) => res_view(r) == decode_prognosis(j),
                None => res_view(r) == Err::<PrognosisV, ApiError>(ApiError::Schema),
            }),
    {
        match parse_json_text(s) {
            Some(j) => Prognosis::decode_json(&j),
            None => Err(ApiError::Schema),
        }
    }
}

impl Stop {
    /// Decodes a stop from JSON text.
    pub fn from_json_text(s: &str) -> (r: Result<Stop, ApiError>)
        ensures
            (match json_doc_of(s@) {
                Some(j) => res_view(r) == decode_stop(j),
                None => res_view(r) == Err::<StopV, ApiError>(ApiError::Schema),
            }),
    {
        match parse_json_text(s) {
            Some(j) => Stop::decode_json(&j),
            None => Err(ApiError::Schema),
        }
    }
}

impl Journey {
    /// Decodes a journey from JSON text; members of other names beside it
    /// in the same object are ignored, as the flat wire shape requires.
    pub fn from_json_text(s: &str) -> (r: Result<Journey, ApiError>)
        ensures
            (match json_doc_of(s@) {
                Some(j) => res_view(r) == decode_journey(j),
                None => res_view(r) == Err::<JourneyV, ApiError>(ApiError::Schema),
            }),
    {
        match parse_json_text(s) {
            Some(j) => Journey::decode_json(&j),
            None => Err(ApiError::Schema),
        }
    }
}

impl StationBoardResponse {
    /// Decodes one HTTP response body and projects the first `min(n, len)`
    /// board entries into display records: the whole pure part of a fetch,
    /// from text to records.
    pub fn lines_from_json_text(s: &str, n: usize) -> (r: Result<Vec<LineInfo>, ApiError>)
        ensures
            (match json_doc_of(s@) {
                None => r == Err::<Vec<LineInfo>, ApiError>(ApiError::Schema),
                Some(j) => (match decode_response(j) {
                    Err(e) => r == Err::<Vec<LineInfo>, ApiError>(e),
                    Ok(resp) => (match r {
                        Ok(v) => spec_extract(resp.stationboard, n as int) == Ok::<
                            Seq<LineInfoV>,
                            ApiError,
                        >(Seq::new(v@.len(), |t: int| v@[t]@)),
                        Err(e) => spec_extract(resp.stationboard, n as int) == Err::<
                            Seq<LineInfoV>,
                            ApiError,
                        >(e),
                    }),
                }),
            }),
    {
        match StationBoardResponse::from_json_text(s) {
            Err(e) => Err(e),
            Ok(board) => {
                proof {
                    match json_doc_of(s@) {
                        Some(j) => {
                            lemma_decode_response_wf(j);
                        },
                        None => {},
                    }
                }
                board.extract_lines(n)
            },
        }
    }

    /// Decodes a whole stationboard answer from JSON text, the body of one
    /// HTTP response: text that is not a JSON document of the response's
    /// shape is refused with `Schema`.
    pub fn from_json_text(s: &str) -> (r: Result<StationBoardResponse, ApiError>)
        ensures
            (match json_doc_of(s@) {
                Some(j) => res_view(r) == decode_response(j),
                None => res_view(r) == Err::<StationBoardResponseV, ApiError>(ApiError::Schema),
            }),
    {
        match parse_json_text(s) {
            Some(j) => StationBoardResponse::decode_json(&j),
            None => Err(ApiError::Schema),
        }
    }
}

} // verus!
