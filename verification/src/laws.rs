use vstd::prelude::*;
use crate::decode::{
    decode_coordinate, decode_element, decode_elements, decode_journey_fields, decode_location,
    decode_prognosis, decode_response, decode_stop, decode_stops,
};
use crate::digits::{lemma_parse_dec_u32, lemma_parse_int_i32};
use crate::errors::ApiError;
use crate::encode::{
    enc_opt_i32, enc_opt_num, enc_opt_str, enc_opt_timestamp, enc_opt_u32, encode_coordinate,
    encode_element, encode_journey_members, encode_location, encode_prognosis, encode_response,
    encode_stop,
};
use crate::json::{lemma_lookup_at, lemma_lookup_insert, lemma_lookup_skip, JsonV};
use crate::model::{
    CoordinateV, JourneyV, LocationV, PrognosisV, StationBoardElementV, StationBoardResponseV,
    StopV,
};
use crate::timestamp::lemma_timestamp_roundtrip;

verus! {

// ---------------------------------------------------------------------------
// Round trips: whatever a value's optional fields hold, writing it to the
// wire shape and reading that back yields the value. Well-formedness is
// asked only of the timestamps, whose wire format cannot carry anything
// else.
// ---------------------------------------------------------------------------
/// Encoding a coordinate and decoding the document yields it back.
pub proof fn lemma_coordinate_roundtrip(c: CoordinateV)
    ensures
        decode_coordinate(encode_coordinate(c)) == Ok::<CoordinateV, ApiError>(c),
{
    reveal_strlit("type");
    reveal_strlit("x");
    reveal_strlit("y");
    let f = encode_coordinate(c)->Obj_0;
    assert("type"@.len() == 4 && "x"@.len() == 1 && "y"@.len() == 1);
    assert("x"@[0] == 'x' && "y"@[0] == 'y');
    assert(f[0] == ("type"@, JsonV::Str(c.kind)));
    assert(f[1] == ("x"@, enc_opt_num(c.x)));
    assert(f[2] == ("y"@, enc_opt_num(c.y)));
    lemma_lookup_at(f, "type"@, 0);
    lemma_lookup_at(f, "x"@, 1);
    lemma_lookup_at(f, "y"@, 2);
    assert(decode_coordinate(encode_coordinate(c))->Ok_0 =~= c);
}

/// Encoding a location and decoding the document yields it back.
pub proof fn lemma_location_roundtrip(l: LocationV)
    ensures
        decode_location(encode_location(l)) == Ok::<LocationV, ApiError>(l),
{
    reveal_strlit("id");
    reveal_strlit("name");
    reveal_strlit("score");
    reveal_strlit("coordinate");
    reveal_strlit("distance");
    let f = encode_location(l)->Obj_0;
    assert("id"@.len() == 2 && "name"@.len() == 4 && "score"@.len() == 5 && "coordinate"@.len()
        == 10 && "distance"@.len() == 8);
    assert(f[0] == ("id"@, enc_opt_str(l.id)));
    assert(f[1] == ("name"@, enc_opt_str(l.name)));
    assert(f[2] == ("score"@, enc_opt_num(l.score)));
    assert(f[3] == ("coordinate"@, encode_coordinate(l.coordinate)));
    assert(f[4] == ("distance"@, enc_opt_num(l.distance)));
    lemma_lookup_at(f, "id"@, 0);
    lemma_lookup_at(f, "name"@, 1);
    lemma_lookup_at(f, "score"@, 2);
    lemma_lookup_at(f, "coordinate"@, 3);
    lemma_lookup_at(f, "distance"@, 4);
    lemma_coordinate_roundtrip(l.coordinate);
    assert(decode_location(encode_location(l))->Ok_0 =~= l);
}

/// Encoding a prognosis and decoding the document yields it back.
pub proof fn lemma_prognosis_roundtrip(p: PrognosisV)
    requires
        p.wf(),
    ensures
        decode_prognosis(encode_prognosis(p)) == Ok::<PrognosisV, ApiError>(p),
{
    reveal_strlit("platform");
    reveal_strlit("departure");
    reveal_strlit("arrival");
    reveal_strlit("capacity1st");
    reveal_strlit("capacity2nd");
    let f = encode_prognosis(p)->Obj_0;
    assert("platform"@.len() == 8 && "departure"@.len() == 9 && "arrival"@.len() == 7
        && "capacity1st"@.len() == 11 && "capacity2nd"@.len() == 11);
    assert("capacity1st"@[8] == '1' && "capacity2nd"@[8] == '2');
    assert(f[0] == ("platform"@, enc_opt_str(p.platform)));
    assert(f[1] == ("departure"@, enc_opt_timestamp(p.departure)));
    assert(f[2] == ("arrival"@, enc_opt_timestamp(p.arrival)));
    assert(f[3] == ("capacity1st"@, enc_opt_u32(p.capacity1st)));
    assert(f[4] == ("capacity2nd"@, enc_opt_u32(p.capacity2nd)));
    lemma_lookup_at(f, "platform"@, 0);
    lemma_lookup_at(f, "departure"@, 1);
    lemma_lookup_at(f, "arrival"@, 2);
    lemma_lookup_at(f, "capacity1st"@, 3);
    lemma_lookup_at(f, "capacity2nd"@, 4);
    match p.departure {
        Some(t) => {
            lemma_timestamp_roundtrip(t);
        },
        None => {},
    }
    match p.arrival {
        Some(t) => {
            lemma_timestamp_roundtrip(t);
        },
        None => {},
    }
    match p.capacity1st {
        Some(v) => {
            lemma_parse_dec_u32(v);
        },
        None => {},
    }
    match p.capacity2nd {
        Some(v) => {
            lemma_parse_dec_u32(v);
        },
        None => {},
    }
    assert(decode_prognosis(encode_prognosis(p))->Ok_0 =~= p);
}

/// Encoding a stop and decoding the document yields it back.
pub proof fn lemma_stop_roundtrip(s: StopV)
    requires
        s.wf(),
    ensures
        decode_stop(encode_stop(s)) == Ok::<StopV, ApiError>(s),
{
    reveal_strlit("station");
    reveal_strlit("arrival");
    reveal_strlit("departure");
    reveal_strlit("delay");
    reveal_strlit("platform");
    reveal_strlit("prognosis");
    let f = encode_stop(s)->Obj_0;
    assert("station"@.len() == 7 && "arrival"@.len() == 7 && "departure"@.len() == 9
        && "delay"@.len() == 5 && "platform"@.len() == 8 && "prognosis"@.len() == 9);
    assert("station"@[0] == 's' && "arrival"@[0] == 'a' && "departure"@[0] == 'd' && "prognosis"@[0]
        == 'p');
    assert(f[0] == ("station"@, encode_location(s.station)));
    assert(f[1] == ("arrival"@, enc_opt_timestamp(s.arrival)));
    assert(f[2] == ("departure"@, enc_opt_timestamp(s.departure)));
    assert(f[3] == ("delay"@, enc_opt_i32(s.delay)));
    assert(f[4] == ("platform"@, enc_opt_str(s.platform)));
    assert(f[5].0 == "prognosis"@);
    lemma_lookup_at(f, "station"@, 0);
    lemma_lookup_at(f, "arrival"@, 1);
    lemma_lookup_at(f, "departure"@, 2);
    lemma_lookup_at(f, "delay"@, 3);
    lemma_lookup_at(f, "platform"@, 4);
    lemma_lookup_at(f, "prognosis"@, 5);
    lemma_location_roundtrip(s.station);
    match s.arrival {
        Some(t) => {
            lemma_timestamp_roundtrip(t);
        },
        None => {},
    }
    match s.departure {
        Some(t) => {
            lemma_timestamp_roundtrip(t);
        },
        None => {},
    }
    match s.delay {
        Some(v) => {
            lemma_parse_int_i32(v);
        },
        None => {},
    }
    match s.prognosis {
        Some(p) => {
            lemma_prognosis_roundtrip(p);
        },
        None => {},
    }
    assert(decode_stop(encode_stop(s))->Ok_0 =~= s);
}

/// Encoding a journey's members and decoding them yields the journey back.
#[verifier::rlimit(60)]
pub proof fn lemma_journey_members_roundtrip(j: JourneyV)
    requires
        j.wf(),
    ensures
        decode_journey_fields(encode_journey_members(j)) == Ok::<JourneyV, ApiError>(j),
{
    reveal_strlit("name");
    reveal_strlit("category");
    reveal_strlit("categoryCode");
    reveal_strlit("number");
    reveal_strlit("operator");
    reveal_strlit("to");
    reveal_strlit("capacity1st");
    reveal_strlit("capacity2nd");
    reveal_strlit("passList");
    let f = encode_journey_members(j);
    assert("name"@.len() == 4 && "category"@.len() == 8 && "categoryCode"@.len() == 12
        && "number"@.len() == 6 && "operator"@.len() == 8 && "to"@.len() == 2
        && "capacity1st"@.len() == 11 && "capacity2nd"@.len() == 11 && "passList"@.len() == 8);
    assert("category"@[0] == 'c' && "operator"@[0] == 'o' && "passList"@[0] == 'p'
        && "capacity1st"@[8] == '1' && "capacity2nd"@[8] == '2');
    assert(f[0] == ("name"@, enc_opt_str(j.name)));
    assert(f[1] == ("category"@, JsonV::Str(j.category)));
    assert(f[2] == ("categoryCode"@, enc_opt_str(j.category_code)));
    assert(f[3] == ("number"@, enc_opt_str(j.number)));
    assert(f[4] == ("operator"@, JsonV::Str(j.operator)));
    assert(f[5] == ("to"@, JsonV::Str(j.to)));
    assert(f[6] == ("capacity1st"@, enc_opt_u32(j.capacity1st)));
    assert(f[7] == ("capacity2nd"@, enc_opt_u32(j.capacity2nd)));
    assert(f[8].0 == "passList"@);
    lemma_lookup_at(f, "name"@, 0);
    lemma_lookup_at(f, "category"@, 1);
    lemma_lookup_at(f, "categoryCode"@, 2);
    lemma_lookup_at(f, "number"@, 3);
    lemma_lookup_at(f, "operator"@, 4);
    lemma_lookup_at(f, "to"@, 5);
    lemma_lookup_at(f, "capacity1st"@, 6);
    lemma_lookup_at(f, "capacity2nd"@, 7);
    lemma_lookup_at(f, "passList"@, 8);
    match j.capacity1st {
        Some(v) => {
            lemma_parse_dec_u32(v);
        },
        None => {},
    }
    match j.capacity2nd {
        Some(v) => {
            lemma_parse_dec_u32(v);
        },
        None => {},
    }
    let enc = Seq::new(j.pass_list.len(), |i: int| encode_stop(j.pass_list[i]));
    assert forall|i: int| 0 <= i < enc.len() implies (#[trigger] decode_stop(enc[i])) == Ok::<
        StopV,
        ApiError,
    >(j.pass_list[i]) by {
        lemma_stop_roundtrip(j.pass_list[i]);
    }
    assert(decode_stops(enc) == Ok::<Seq<StopV>, ApiError>(j.pass_list)) by {
        assert(decode_stops(enc)->Ok_0 =~= j.pass_list);
    }
    assert(decode_journey_fields(encode_journey_members(j))->Ok_0 =~= j);
}

/// Encoding a board entry and decoding the flat document yields it back.
#[verifier::rlimit(60)]
pub proof fn lemma_element_roundtrip(e: StationBoardElementV)
    requires
        e.wf(),
    ensures
        decode_element(encode_element(e)) == Ok::<StationBoardElementV, ApiError>(e),
{
    reveal_strlit("stop");
    reveal_strlit("name");
    reveal_strlit("category");
    reveal_strlit("categoryCode");
    reveal_strlit("number");
    reveal_strlit("operator");
    reveal_strlit("to");
    reveal_strlit("capacity1st");
    reveal_strlit("capacity2nd");
    reveal_strlit("passList");
    let members = encode_journey_members(e.journey);
    let f = seq![("stop"@, encode_stop(e.stop))] + members;
    assert("name"@.len() == 4 && "category"@.len() == 8 && "categoryCode"@.len() == 12
        && "number"@.len() == 6 && "operator"@.len() == 8 && "to"@.len() == 2
        && "capacity1st"@.len() == 11 && "capacity2nd"@.len() == 11 && "passList"@.len() == 8);
    assert("category"@[0] == 'c' && "operator"@[0] == 'o' && "passList"@[0] == 'p'
        && "capacity1st"@[8] == '1' && "capacity2nd"@[8] == '2');
    assert("stop"@.len() == 4 && "stop"@[0] == 's' && "name"@[0] == 'n');
    assert(f[0] == ("stop"@, encode_stop(e.stop)));
    lemma_lookup_at(f, "stop"@, 0);
    lemma_stop_roundtrip(e.stop);
    assert(f.skip(1) =~= members);
    lemma_lookup_skip(f, "name"@, 1);
    lemma_lookup_skip(f, "category"@, 1);
    lemma_lookup_skip(f, "categoryCode"@, 1);
    lemma_lookup_skip(f, "number"@, 1);
    lemma_lookup_skip(f, "operator"@, 1);
    lemma_lookup_skip(f, "to"@, 1);
    lemma_lookup_skip(f, "capacity1st"@, 1);
    lemma_lookup_skip(f, "capacity2nd"@, 1);
    lemma_lookup_skip(f, "passList"@, 1);
    lemma_journey_members_roundtrip(e.journey);
    assert(decode_journey_fields(f) == decode_journey_fields(members));
    assert(decode_element(encode_element(e))->Ok_0 =~= e);
}

/// Encoding a whole answer and decoding the document yields it back: the
/// document round trip of the model.
#[verifier::rlimit(60)]
pub proof fn lemma_response_roundtrip(r: StationBoardResponseV)
    requires
        r.wf(),
    ensures
        decode_response(encode_response(r)) == Ok::<StationBoardResponseV, ApiError>(r),
{
    reveal_strlit("station");
    reveal_strlit("stationboard");
    let f = encode_response(r)->Obj_0;
    assert("station"@.len() == 7 && "stationboard"@.len() == 12);
    assert(f[0] == ("station"@, encode_location(r.station)));
    assert(f[1].0 == "stationboard"@);
    lemma_lookup_at(f, "station"@, 0);
    lemma_lookup_at(f, "stationboard"@, 1);
    lemma_location_roundtrip(r.station);
    let enc = Seq::new(r.stationboard.len(), |i: int| encode_element(r.stationboard[i]));
    assert forall|i: int| 0 <= i < enc.len() implies (#[trigger] decode_element(enc[i])) == Ok::<
        StationBoardElementV,
        ApiError,
    >(r.stationboard[i]) by {
        lemma_element_roundtrip(r.stationboard[i]);
    }
    assert(decode_elements(enc) == Ok::<Seq<StationBoardElementV>, ApiError>(r.stationboard)) by {
        assert(decode_elements(enc)->Ok_0 =~= r.stationboard);
    }
    assert(decode_response(encode_response(r))->Ok_0 =~= r);
}

// ---------------------------------------------------------------------------
// Unknown members never hurt: a member inserted anywhere under a name the
// schema does not read leaves every decode unchanged, so decoding cannot
// fail for the presence of an unrecognized field.
// ---------------------------------------------------------------------------
/// A coordinate decode ignores a member of any other name.
pub proof fn lemma_coordinate_ignores_unknown(f: Seq<(Seq<char>, JsonV)>, i: int, k: Seq<char>, v: JsonV)
    requires
        0 <= i <= f.len(),
        k != "type"@,
        k != "x"@,
        k != "y"@,
    ensures
        decode_coordinate(JsonV::Obj(f.insert(i, (k, v)))) == decode_coordinate(JsonV::Obj(f)),
{
    lemma_lookup_insert(f, "type"@, i, k, v);
    lemma_lookup_insert(f, "x"@, i, k, v);
    lemma_lookup_insert(f, "y"@, i, k, v);
}

/// A location decode ignores a member of any other name.
pub proof fn lemma_location_ignores_unknown(f: Seq<(Seq<char>, JsonV)>, i: int, k: Seq<char>, v: JsonV)
    requires
        0 <= i <= f.len(),
        k != "id"@,
        k != "name"@,
        k != "score"@,
        k != "coordinate"@,
        k != "distance"@,
    ensures
        decode_location(JsonV::Obj(f.insert(i, (k, v)))) == decode_location(JsonV::Obj(f)),
{
    lemma_lookup_insert(f, "id"@, i, k, v);
    lemma_lookup_insert(f, "name"@, i, k, v);
    lemma_lookup_insert(f, "score"@, i, k, v);
    lemma_lookup_insert(f, "coordinate"@, i, k, v);
    lemma_lookup_insert(f, "distance"@, i, k, v);
}

/// A prognosis decode ignores a member of any other name.
pub proof fn lemma_prognosis_ignores_unknown(f: Seq<(Seq<char>, JsonV)>, i: int, k: Seq<char>, v: JsonV)
    requires
        0 <= i <= f.len(),
        k != "platform"@,
        k != "departure"@,
        k != "arrival"@,
        k != "capacity1st"@,
        k != "capacity2nd"@,
    ensures
        decode_prognosis(JsonV::Obj(f.insert(i, (k, v)))) == decode_prognosis(JsonV::Obj(f)),
{
    lemma_lookup_insert(f, "platform"@, i, k, v);
    lemma_lookup_insert(f, "departure"@, i, k, v);
    lemma_lookup_insert(f, "arrival"@, i, k, v);
    lemma_lookup_insert(f, "capacity1st"@, i, k, v);
    lemma_lookup_insert(f, "capacity2nd"@, i, k, v);
}

/// A stop decode ignores a member of any other name; this is what lets the
/// wire carry `arrivalTimestamp`, `realtimeAvailability`, `location` and
/// the like without harm.
pub proof fn lemma_stop_ignores_unknown(f: Seq<(Seq<char>, JsonV)>, i: int, k: Seq<char>, v: JsonV)
    requires
        0 <= i <= f.len(),
        k != "station"@,
        k != "arrival"@,
        k != "departure"@,
        k != "delay"@,
        k != "platform"@,
        k != "prognosis"@,
    ensures
        decode_stop(JsonV::Obj(f.insert(i, (k, v)))) == decode_stop(JsonV::Obj(f)),
{
    lemma_lookup_insert(f, "station"@, i, k, v);
    lemma_lookup_insert(f, "arrival"@, i, k, v);
    lemma_lookup_insert(f, "departure"@, i, k, v);
    lemma_lookup_insert(f, "delay"@, i, k, v);
    lemma_lookup_insert(f, "platform"@, i, k, v);
    lemma_lookup_insert(f, "prognosis"@, i, k, v);
}

/// A journey decode ignores a member of any other name; the flattened
/// element shape relies on this.
pub proof fn lemma_journey_ignores_unknown(f: Seq<(Seq<char>, JsonV)>, i: int, k: Seq<char>, v: JsonV)
    requires
        0 <= i <= f.len(),
        k != "name"@,
        k != "category"@,
        k != "categoryCode"@,
        k != "number"@,
        k != "operator"@,
        k != "to"@,
        k != "capacity1st"@,
        k != "capacity2nd"@,
        k != "passList"@,
    ensures
        decode_journey_fields(f.insert(i, (k, v))) == decode_journey_fields(f),
{
    lemma_lookup_insert(f, "name"@, i, k, v);
    lemma_lookup_insert(f, "category"@, i, k, v);
    lemma_lookup_insert(f, "categoryCode"@, i, k, v);
    lemma_lookup_insert(f, "number"@, i, k, v);
    lemma_lookup_insert(f, "operator"@, i, k, v);
    lemma_lookup_insert(f, "to"@, i, k, v);
    lemma_lookup_insert(f, "capacity1st"@, i, k, v);
    lemma_lookup_insert(f, "capacity2nd"@, i, k, v);
    lemma_lookup_insert(f, "passList"@, i, k, v);
}

/// A board entry decode ignores a member of any other name.
pub proof fn lemma_element_ignores_unknown(f: Seq<(Seq<char>, JsonV)>, i: int, k: Seq<char>, v: JsonV)
    requires
        0 <= i <= f.len(),
        k != "stop"@,
        k != "name"@,
        k != "category"@,
        k != "categoryCode"@,
        k != "number"@,
        k != "operator"@,
        k != "to"@,
        k != "capacity1st"@,
        k != "capacity2nd"@,
        k != "passList"@,
    ensures
        decode_element(JsonV::Obj(f.insert(i, (k, v)))) == decode_element(JsonV::Obj(f)),
{
    lemma_lookup_insert(f, "stop"@, i, k, v);
    lemma_journey_ignores_unknown(f, i, k, v);
}

/// A whole answer's decode ignores a member of any other name.
pub proof fn lemma_response_ignores_unknown(f: Seq<(Seq<char>, JsonV)>, i: int, k: Seq<char>, v: JsonV)
    requires
        0 <= i <= f.len(),
        k != "station"@,
        k != "stationboard"@,
    ensures
        decode_response(JsonV::Obj(f.insert(i, (k, v)))) == decode_response(JsonV::Obj(f)),
{
    lemma_lookup_insert(f, "station"@, i, k, v);
    lemma_lookup_insert(f, "stationboard"@, i, k, v);
}

} // verus!
