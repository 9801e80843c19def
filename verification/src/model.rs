use vstd::prelude::*;
use crate::timestamp::Timestamp;

verus! {

// The wire schema keeps latitude, longitude, score and distance as JSON
// numbers of unspecified precision. The model keeps each as its decimal
// token, so that nothing is rounded and a document survives a round trip
// unchanged; no arithmetic is ever done on them.
/// A pair of coordinates under a named reference system.
#[derive(Debug, Clone, PartialEq)]
pub struct Coordinate {
    /// The reference system tag, e.g. `WGS84`; written `type` on the wire.
    pub kind: String,
    /// Latitude, as the number's decimal token.
    pub x: Option<String>,
    /// Longitude, as the number's decimal token.
    pub y: Option<String>,
}

/// A place the API knows, most often a station.
#[derive(Debug, Clone, PartialEq)]
pub struct Location {
    pub id: Option<String>,
    pub name: Option<String>,
    /// An accuracy score, as the number's decimal token.
    pub score: Option<String>,
    pub coordinate: Coordinate,
    /// A distance to the queried position, as the number's decimal token.
    pub distance: Option<String>,
}

/// A real-time adjusted estimate for a stop.
#[derive(Debug, Clone, PartialEq)]
pub struct Prognosis {
    pub platform: Option<String>,
    pub departure: Option<Timestamp>,
    pub arrival: Option<Timestamp>,
    pub capacity1st: Option<u32>,
    pub capacity2nd: Option<u32>,
}

/// One visit of a vehicle at a station.
#[derive(Debug, Clone, PartialEq)]
pub struct Stop {
    pub station: Location,
    pub arrival: Option<Timestamp>,
    pub departure: Option<Timestamp>,
    /// Delay in minutes; absent when no real-time data is known.
    pub delay: Option<i32>,
    pub platform: Option<String>,
    pub prognosis: Option<Prognosis>,
}

/// One scheduled vehicle run.
#[derive(Debug, Clone, PartialEq)]
pub struct Journey {
    pub name: Option<String>,
    /// The vehicle category, e.g. `IC` or `B`.
    pub category: String,
    /// Written `categoryCode` on the wire.
    pub category_code: Option<String>,
    /// The line or run number.
    pub number: Option<String>,
    pub operator: String,
    /// The final destination's display name.
    pub to: String,
    pub capacity1st: Option<u32>,
    pub capacity2nd: Option<u32>,
    /// The full stop sequence of the run; written `passList` on the wire.
    pub pass_list: Vec<Stop>,
}

/// One entry of the board: the board's own stop under the key `stop`,
/// beside it the journey's fields spread into the same flat object.
#[derive(Debug, Clone, PartialEq)]
pub struct StationBoardElement {
    pub stop: Stop,
    pub journey: Journey,
}

/// The API's answer: the queried station and its board, in the order the
/// API returned, soonest first.
#[derive(Debug, Clone, PartialEq)]
pub struct StationBoardResponse {
    pub station: Location,
    pub stationboard: Vec<StationBoardElement>,
}

/// The mathematical image of `Coordinate`.
#[verifier::ext_equal]
pub struct CoordinateV {
    pub kind: Seq<char>,
    pub x: Option<Seq<char>>,
    pub y: Option<Seq<char>>,
}

#[verifier::ext_equal]
pub struct LocationV {
    pub id: Option<Seq<char>>,
    pub name: Option<Seq<char>>,
    pub score: Option<Seq<char>>,
    pub coordinate: CoordinateV,
    pub distance: Option<Seq<char>>,
}

#[verifier::ext_equal]
pub struct PrognosisV {
    pub platform: Option<Seq<char>>,
    pub departure: Option<Timestamp>,
    pub arrival: Option<Timestamp>,
    pub capacity1st: Option<u32>,
    pub capacity2nd: Option<u32>,
}

#[verifier::ext_equal]
pub struct StopV {
    pub station: LocationV,
    pub arrival: Option<Timestamp>,
    pub departure: Option<Timestamp>,
    pub delay: Option<i32>,
    pub platform: Option<Seq<char>>,
    pub prognosis: Option<PrognosisV>,
}

#[verifier::ext_equal]
pub struct JourneyV {
    pub name: Option<Seq<char>>,
    pub category: Seq<char>,
    pub category_code: Option<Seq<char>>,
    pub number: Option<Seq<char>>,
    pub operator: Seq<char>,
    pub to: Seq<char>,
    pub capacity1st: Option<u32>,
    pub capacity2nd: Option<u32>,
    pub pass_list: Seq<StopV>,
}

#[verifier::ext_equal]
pub struct StationBoardElementV {
    pub stop: StopV,
    pub journey: JourneyV,
}

#[verifier::ext_equal]
pub struct StationBoardResponseV {
    pub station: LocationV,
    pub stationboard: Seq<StationBoardElementV>,
}

pub open spec fn opt_str_view(s: Option<String>) -> Option<Seq<char>> {
    match s {
        Some(s) => Some(s@),
        None => None,
    }
}

impl View for Coordinate {
    type V = CoordinateV;

    open spec fn view(&self) -> CoordinateV {
        CoordinateV { kind: self.kind@, x: opt_str_view(self.x), y: opt_str_view(self.y) }
    }
}

impl View for Location {
    type V = LocationV;

    open spec fn view(&self) -> LocationV {
        LocationV {
            id: opt_str_view(self.id),
            name: opt_str_view(self.name),
            score: opt_str_view(self.score),
            coordinate: self.coordinate@,
            distance: opt_str_view(self.distance),
        }
    }
}

impl View for Prognosis {
    type V = PrognosisV;

    open spec fn view(&self) -> PrognosisV {
        PrognosisV {
            platform: opt_str_view(self.platform),
            departure: self.departure,
            arrival: self.arrival,
            capacity1st: self.capacity1st,
            capacity2nd: self.capacity2nd,
        }
    }
}

impl View for Stop {
    type V = StopV;

    open spec fn view(&self) -> StopV {
        StopV {
            station: self.station@,
            arrival: self.arrival,
            departure: self.departure,
            delay: self.delay,
            platform: opt_str_view(self.platform),
            prognosis: match self.prognosis {
                Some(p) => Some(p@),
                None => None,
            },
        }
    }
}

impl View for Journey {
    type V = JourneyV;

    open spec fn view(&self) -> JourneyV {
        JourneyV {
            name: opt_str_view(self.name),
            category: self.category@,
            category_code: opt_str_view(self.category_code),
            number: opt_str_view(self.number),
            operator: self.operator@,
            to: self.to@,
            capacity1st: self.capacity1st,
            capacity2nd: self.capacity2nd,
            pass_list: Seq::new(self.pass_list@.len(), |i: int| self.pass_list@[i]@),
        }
    }
}

impl View for StationBoardElement {
    type V = StationBoardElementV;

    open spec fn view(&self) -> StationBoardElementV {
        StationBoardElementV { stop: self.stop@, journey: self.journey@ }
    }
}

impl View for StationBoardResponse {
    type V = StationBoardResponseV;

    open spec fn view(&self) -> StationBoardResponseV {
        StationBoardResponseV {
            station: self.station@,
            stationboard: Seq::new(self.stationboard@.len(), |i: int| self.stationboard@[i]@),
        }
    }
}

impl PrognosisV {
    /// Every timestamp the value carries is a well-formed wire timestamp.
    pub open spec fn wf(self) -> bool {
        &&& (self.departure matches Some(t) ==> t.wf())
        &&& (self.arrival matches Some(t) ==> t.wf())
    }
}

impl StopV {
    /// Every timestamp the value carries is a well-formed wire timestamp.
    pub open spec fn wf(self) -> bool {
        &&& (self.arrival matches Some(t) ==> t.wf())
        &&& (self.departure matches Some(t) ==> t.wf())
        &&& (self.prognosis matches Some(p) ==> p.wf())
    }
}

impl JourneyV {
    /// Every timestamp the value carries is a well-formed wire timestamp.
    pub open spec fn wf(self) -> bool {
        forall|i: int| 0 <= i < self.pass_list.len() ==> (#[trigger] self.pass_list[i]).wf()
    }
}

impl StationBoardElementV {
    pub open spec fn wf(self) -> bool {
        self.stop.wf() && self.journey.wf()
    }
}

impl StationBoardResponseV {
    pub open spec fn wf(self) -> bool {
        forall|i: int| 0 <= i < self.stationboard.len() ==> (#[trigger] self.stationboard[i]).wf()
    }
}

} // verus!
