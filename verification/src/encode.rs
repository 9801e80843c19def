use vstd::prelude::*;
use crate::digits::{dec_chars, i32_string, int_chars, u32_string};
use crate::json::{arr_elems_view, fields_view, lemma_arr_view, lemma_obj_view, Json, JsonV};
use crate::model::{
    opt_str_view, Coordinate, CoordinateV, Journey, JourneyV, Location, LocationV, Prognosis,
    PrognosisV, StationBoardElement, StationBoardElementV, StationBoardResponse,
    StationBoardResponseV, Stop, StopV,
};
use crate::timestamp::{timestamp_chars, Timestamp};

verus! {

// ---------------------------------------------------------------------------
// What each entity encodes to: the flat wire shape, every member written
// out, an absent field written as `null`.
// ---------------------------------------------------------------------------
pub open spec fn enc_opt_str(s: Option<Seq<char>>) -> JsonV {
    match s {
        Some(x) => JsonV::Str(x),
        None => JsonV::Null,
    }
}

pub open spec fn enc_opt_num(s: Option<Seq<char>>) -> JsonV {
    match s {
        Some(x) => JsonV::Num(x),
        None => JsonV::Null,
    }
}

pub open spec fn enc_opt_u32(v: Option<u32>) -> JsonV {
    match v {
        Some(x) => JsonV::Num(dec_chars(x as int)),
        None => JsonV::Null,
    }
}

pub open spec fn enc_opt_i32(v: Option<i32>) -> JsonV {
    match v {
        Some(x) => JsonV::Num(int_chars(x as int)),
        None => JsonV::Null,
    }
}

pub open spec fn enc_opt_timestamp(t: Option<Timestamp>) -> JsonV {
    match t {
        Some(x) => JsonV::Str(timestamp_chars(x)),
        None => JsonV::Null,
    }
}

pub open spec fn encode_coordinate(c: CoordinateV) -> JsonV {
    JsonV::Obj(
        seq![
            ("type"@, JsonV::Str(c.kind)),
            ("x"@, enc_opt_num(c.x)),
            ("y"@, enc_opt_num(c.y)),
        ],
    )
}

pub open spec fn encode_location(l: LocationV) -> JsonV {
    JsonV::Obj(
        seq![
            ("id"@, enc_opt_str(l.id)),
            ("name"@, enc_opt_str(l.name)),
            ("score"@, enc_opt_num(l.score)),
            ("coordinate"@, encode_coordinate(l.coordinate)),
            ("distance"@, enc_opt_num(l.distance)),
        ],
    )
}

pub open spec fn encode_prognosis(p: PrognosisV) -> JsonV {
    JsonV::Obj(
        seq![
            ("platform"@, enc_opt_str(p.platform)),
            ("departure"@, enc_opt_timestamp(p.departure)),
            ("arrival"@, enc_opt_timestamp(p.arrival)),
            ("capacity1st"@, enc_opt_u32(p.capacity1st)),
            ("capacity2nd"@, enc_opt_u32(p.capacity2nd)),
        ],
    )
}

pub open spec fn encode_stop(s: StopV) -> JsonV {
    JsonV::Obj(
        seq![
            ("station"@, encode_location(s.station)),
            ("arrival"@, enc_opt_timestamp(s.arrival)),
            ("departure"@, enc_opt_timestamp(s.departure)),
            ("delay"@, enc_opt_i32(s.delay)),
            ("platform"@, enc_opt_str(s.platform)),
            (
                "prognosis"@,
                match s.prognosis {
                    Some(p) => encode_prognosis(p),
                    None => JsonV::Null,
                },
            ),
        ],
    )
}

/// The members a journey contributes to the object that carries it.
pub open spec fn encode_journey_members(j: JourneyV) -> Seq<(Seq<char>, JsonV)> {
    seq![
        ("name"@, enc_opt_str(j.name)),
        ("category"@, JsonV::Str(j.category)),
        ("categoryCode"@, enc_opt_str(j.category_code)),
        ("number"@, enc_opt_str(j.number)),
        ("operator"@, JsonV::Str(j.operator)),
        ("to"@, JsonV::Str(j.to)),
        ("capacity1st"@, enc_opt_u32(j.capacity1st)),
        ("capacity2nd"@, enc_opt_u32(j.capacity2nd)),
        ("passList"@, JsonV::Arr(Seq::new(j.pass_list.len(), |i: int| encode_stop(j.pass_list[i])))),
    ]
}

pub open spec fn encode_journey(j: JourneyV) -> JsonV {
    JsonV::Obj(encode_journey_members(j))
}

/// One board entry: the stop under `stop`, the journey's members spread
/// beside it into the same flat object.
pub open spec fn encode_element(e: StationBoardElementV) -> JsonV {
    JsonV::Obj(seq![("stop"@, encode_stop(e.stop))] + encode_journey_members(e.journey))
}

pub open spec fn encode_response(r: StationBoardResponseV) -> JsonV {
    JsonV::Obj(
        seq![
            ("station"@, encode_location(r.station)),
            (
                "stationboard"@,
                JsonV::Arr(Seq::new(r.stationboard.len(), |i: int| encode_element(r.stationboard[i]))),
            ),
        ],
    )
}

// ---------------------------------------------------------------------------
// Executable encoding.
// ---------------------------------------------------------------------------
fn json_of_opt_string(s: &Option<String>) -> (r: Json)
    ensures
        r@ == enc_opt_str(opt_str_view(*s)),
{
    match s {
        Some(x) => Json::Str(x.clone()),
        None => Json::Null,
    }
}

fn json_of_opt_num(s: &Option<String>) -> (r: Json)
    ensures
        r@ == enc_opt_num(opt_str_view(*s)),
{
    match s {
        Some(x) => Json::Num(x.clone()),
        None => Json::Null,
    }
}

fn json_of_opt_u32(v: &Option<u32>) -> (r: Json)
    ensures
        r@ == enc_opt_u32(*v),
{
    match v {
        Some(x) => Json::Num(u32_string(*x)),
        None => Json::Null,
    }
}

fn json_of_opt_i32(v: &Option<i32>) -> (r: Json)
    ensures
        r@ == enc_opt_i32(*v),
{
    match v {
        Some(x) => Json::Num(i32_string(*x)),
        None => Json::Null,
    }
}

fn json_of_opt_timestamp(t: &Option<Timestamp>) -> (r: Json)
    requires
        (*t matches Some(x) ==> x.wf()),
    ensures
        r@ == enc_opt_timestamp(*t),
{
    match t {
        Some(x) => Json::Str(x.format_string()),
        None => Json::Null,
    }
}

impl Coordinate {
    /// Writes the coordinate as the wire object.
    pub fn encode_json(&self) -> (r: Json)
        ensures
            r@ == encode_coordinate(self@),
    {
        let mut fields: Vec<(String, Json)> = Vec::new();
        fields.push((String::from_str("type"), Json::Str(self.kind.clone())));
        fields.push((String::from_str("x"), json_of_opt_num(&self.x)));
        fields.push((String::from_str("y"), json_of_opt_num(&self.y)));
        proof {
            lemma_obj_view(fields);
            assert(fields_view(fields@) =~= encode_coordinate(self@)->Obj_0);
        }
        Json::Obj(fields)
    }
}

impl Location {
    /// Writes the location as the wire object.
    pub fn encode_json(&self) -> (r: Json)
        ensures
            r@ == encode_location(self@),
    {
        let mut fields: Vec<(String, Json)> = Vec::new();
        fields.push((String::from_str("id"), json_of_opt_string(&self.id)));
        fields.push((String::from_str("name"), json_of_opt_string(&self.name)));
        fields.push((String::from_str("score"), json_of_opt_num(&self.score)));
        fields.push((String::from_str("coordinate"), self.coordinate.encode_json()));
        fields.push((String::from_str("distance"), json_of_opt_num(&self.distance)));
        proof {
            lemma_obj_view(fields);
            assert(fields_view(fields@) =~= encode_location(self@)->Obj_0);
        }
        Json::Obj(fields)
    }
}

impl Prognosis {
    /// Writes the prognosis as the wire object.
    pub fn encode_json(&self) -> (r: Json)
        requires
            self@.wf(),
        ensures
            r@ == encode_prognosis(self@),
    {
        let mut fields: Vec<(String, Json)> = Vec::new();
        fields.push((String::from_str("platform"), json_of_opt_string(&self.platform)));
        fields.push((String::from_str("departure"), json_of_opt_timestamp(&self.departure)));
        fields.push((String::from_str("arrival"), json_of_opt_timestamp(&self.arrival)));
        fields.push((String::from_str("capacity1st"), json_of_opt_u32(&self.capacity1st)));
        fields.push((String::from_str("capacity2nd"), json_of_opt_u32(&self.capacity2nd)));
        proof {
            lemma_obj_view(fields);
            assert(fields_view(fields@) =~= encode_prognosis(self@)->Obj_0);
        }
        Json::Obj(fields)
    }
}

impl Stop {
    /// Writes the stop as the wire object.
    pub fn encode_json(&self) -> (r: Json)
        requires
            self@.wf(),
        ensures
            r@ == encode_stop(self@),
    {
        let mut fields: Vec<(String, Json)> = Vec::new();
        fields.push((String::from_str("station"), self.station.encode_json()));
        fields.push((String::from_str("arrival"), json_of_opt_timestamp(&self.arrival)));
        fields.push((String::from_str("departure"), json_of_opt_timestamp(&self.departure)));
        fields.push((String::from_str("delay"), json_of_opt_i32(&self.delay)));
        fields.push((String::from_str("platform"), json_of_opt_string(&self.platform)));
        let prog = match &self.prognosis {
            Some(p) => p.encode_json(),
            None => Json::Null,
        };
        fields.push((String::from_str("prognosis"), prog));
        proof {
            lemma_obj_view(fields);
            assert(fields_view(fields@) =~= encode_stop(self@)->Obj_0);
        }
        Json::Obj(fields)
    }
}

/// Appends a journey's members to an object under construction.
#[verifier::loop_isolation(false)]
fn push_journey_members(j: &Journey, fields: &mut Vec<(String, Json)>)
    requires
        j@.wf(),
    ensures
        fields_view(final(fields)@) == fields_view(old(fields)@) + encode_journey_members(j@),
{
    fields.push((String::from_str("name"), json_of_opt_string(&j.name)));
    fields.push((String::from_str("category"), Json::Str(j.category.clone())));
    fields.push((String::from_str("categoryCode"), json_of_opt_string(&j.category_code)));
    fields.push((String::from_str("number"), json_of_opt_string(&j.number)));
    fields.push((String::from_str("operator"), Json::Str(j.operator.clone())));
    fields.push((String::from_str("to"), Json::Str(j.to.clone())));
    fields.push((String::from_str("capacity1st"), json_of_opt_u32(&j.capacity1st)));
    fields.push((String::from_str("capacity2nd"), json_of_opt_u32(&j.capacity2nd)));
    let mut arr: Vec<Json> = Vec::new();
    let mut i: usize = 0;
    while i < j.pass_list.len()
        invariant
            0 <= i <= j.pass_list@.len(),
            arr@.len() == i,
            forall|k: int| 0 <= k < i ==> (#[trigger] arr@[k])@ == encode_stop(j.pass_list@[k]@),
        decreases j.pass_list@.len() - i,
    {
        proof {
            assert(j@.pass_list[i as int] == j.pass_list@[i as int]@);
            assert(j@.pass_list[i as int].wf());
        }
        arr.push(j.pass_list[i].encode_json());
        i = i + 1;
    }
    proof {
        lemma_arr_view(arr);
        assert(arr_elems_view(arr@) =~= Seq::new(
            j@.pass_list.len(),
            |k: int| encode_stop(j@.pass_list[k]),
        ));
    }
    fields.push((String::from_str("passList"), Json::Arr(arr)));
    proof {
        assert(fields_view(fields@) =~= fields_view(old(fields)@) + encode_journey_members(j@));
    }
}

impl Journey {
    /// Writes the journey as an object of its own members.
    pub fn encode_json(&self) -> (r: Json)
        requires
            self@.wf(),
        ensures
            r@ == encode_journey(self@),
    {
        let mut fields: Vec<(String, Json)> = Vec::new();
        push_journey_members(self, &mut fields);
        proof {
            lemma_obj_view(fields);
            assert(fields_view(fields@) =~= encode_journey_members(self@));
        }
        Json::Obj(fields)
    }
}

impl StationBoardElement {
    /// Writes one board entry in the flat wire shape.
    pub fn encode_json(&self) -> (r: Json)
        requires
            self@.wf(),
        ensures
            r@ == encode_element(self@),
    {
        let mut fields: Vec<(String, Json)> = Vec::new();
        fields.push((String::from_str("stop"), self.stop.encode_json()));
        push_journey_members(&self.journey, &mut fields);
        proof {
            lemma_obj_view(fields);
            assert(fields_view(fields@) =~= encode_element(self@)->Obj_0);
        }
        Json::Obj(fields)
    }
}

impl StationBoardResponse {
    /// Writes a whole stationboard answer.
    #[verifier::loop_isolation(false)]
    pub fn encode_json(&self) -> (r: Json)
        requires
            self@.wf(),
        ensures
            r@ == encode_response(self@),
    {
        let mut fields: Vec<(String, Json)> = Vec::new();
        fields.push((String::from_str("station"), self.station.encode_json()));
        let mut arr: Vec<Json> = Vec::new();
        let mut i: usize = 0;
        while i < self.stationboard.len()
            invariant
                0 <= i <= self.stationboard@.len(),
                arr@.len() == i,
                forall|k: int|
                    0 <= k < i ==> (#[trigger] arr@[k])@ == encode_element(
                        self.stationboard@[k]@,
                    ),
            decreases self.stationboard@.len() - i,
        {
            proof {
                assert(self@.stationboard[i as int] == self.stationboard@[i as int]@);
                assert(self@.stationboard[i as int].wf());
            }
            arr.push(self.stationboard[i].encode_json());
            i = i + 1;
        }
        proof {
            lemma_arr_view(arr);
            assert(arr_elems_view(arr@) =~= Seq::new(
                self@.stationboard.len(),
                |k: int| encode_element(self@.stationboard[k]),
            ));
        }
        fields.push((String::from_str("stationboard"), Json::Arr(arr)));
        proof {
            lemma_obj_view(fields);
            assert(fields_view(fields@) =~= encode_response(self@)->Obj_0);
        }
        Json::Obj(fields)
    }
}

} // verus!
