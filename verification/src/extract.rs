use vstd::prelude::*;
use crate::digits::{i32_string, int_chars};
use crate::errors::{ApiError, DisplayField};
use crate::model::{StationBoardElementV, StationBoardResponse};
use crate::timestamp::hhmm_chars;

verus! {

/// One display record of the board: what one printed line carries.
#[derive(Debug, Clone, PartialEq)]
pub struct LineInfo {
    pub line_number: String,
    pub direction: String,
    /// The scheduled departure as wall-clock `HH:MM`.
    pub normal_departure: String,
    /// Delay in minutes, zero when the wire carried none.
    pub delay: i32,
}

#[verifier::ext_equal]
pub struct LineInfoV {
    pub line_number: Seq<char>,
    pub direction: Seq<char>,
    pub normal_departure: Seq<char>,
    pub delay: i32,
}

impl View for LineInfo {
    type V = LineInfoV;

    open spec fn view(&self) -> LineInfoV {
        LineInfoV {
            line_number: self.line_number@,
            direction: self.direction@,
            normal_departure: self.normal_departure@,
            delay: self.delay,
        }
    }
}

/// What one board entry displays as: its journey's number and destination,
/// its stop's departure as wall-clock `HH:MM`, and the delay, zero when
/// absent. The number and the departure, optional on the wire, are owed
/// here: each absence is a `MissingField` error naming the field.
pub open spec fn record_of(e: StationBoardElementV) -> Result<LineInfoV, ApiError> {
    match e.journey.number {
        None => Err(ApiError::MissingField(DisplayField::LineNumber)),
        Some(num) => match e.stop.departure {
            None => Err(ApiError::MissingField(DisplayField::Departure)),
            Some(dep) => Ok(
                LineInfoV {
                    line_number: num,
                    direction: e.journey.to,
                    normal_departure: hhmm_chars(dep),
                    delay: match e.stop.delay {
                        Some(d) => d,
                        None => 0,
                    },
                },
            ),
        },
    }
}

/// The records of entries `i` up to `k`, in order; the first failing entry's
/// error, if any.
pub open spec fn extract_from(b: Seq<StationBoardElementV>, k: int, i: int) -> Result<
    Seq<LineInfoV>,
    ApiError,
>
    decreases k - i,
{
    if i >= k {
        Ok(Seq::empty())
    } else {
        match record_of(b[i]) {
            Err(e) => Err(e),
            Ok(r) => match extract_from(b, k, i + 1) {
                Err(e) => Err(e),
                Ok(rest) => Ok(seq![r] + rest),
            },
        }
    }
}

/// The records of the first `min(n, len)` board entries, in the order the
/// board gave them.
pub open spec fn spec_extract(b: Seq<StationBoardElementV>, n: int) -> Result<
    Seq<LineInfoV>,
    ApiError,
> {
    extract_from(b, if n <= b.len() { n } else { b.len() as int }, 0)
}

/// Where every taken entry displays, extraction returns exactly one record
/// per taken entry, in the board's order.
pub proof fn lemma_extract_ok(b: Seq<StationBoardElementV>, k: int, i: int)
    requires
        0 <= i <= k <= b.len(),
        forall|j: int| i <= j < k ==> (#[trigger] record_of(b[j])) is Ok,
    ensures
        extract_from(b, k, i) == Ok::<Seq<LineInfoV>, ApiError>(
            Seq::new((k - i) as nat, |t: int| record_of(b[i + t])->Ok_0),
        ),
    decreases k - i,
{
    if i >= k {
        assert(Seq::new((k - i) as nat, |t: int| record_of(b[i + t])->Ok_0) =~= Seq::empty());
    } else {
        lemma_extract_ok(b, k, i + 1);
        assert(seq![record_of(b[i])->Ok_0] + Seq::new(
            (k - i - 1) as nat,
            |t: int| record_of(b[i + 1 + t])->Ok_0,
        ) =~= Seq::new((k - i) as nat, |t: int| record_of(b[i + t])->Ok_0));
    }
}

/// The first entry that cannot display decides the error.
pub proof fn lemma_extract_err(b: Seq<StationBoardElementV>, k: int, i: int, m: int)
    requires
        0 <= i <= m < k <= b.len(),
        forall|j: int| i <= j < m ==> (#[trigger] record_of(b[j])) is Ok,
        record_of(b[m]) is Err,
    ensures
        extract_from(b, k, i) == Err::<Seq<LineInfoV>, ApiError>(record_of(b[m])->Err_0),
    decreases m - i,
{
    if i < m {
        lemma_extract_err(b, k, i + 1, m);
    }
}

/// A taken entry whose wire delay was absent displays a delay of zero.
pub proof fn lemma_missing_delay_is_zero(e: StationBoardElementV)
    requires
        e.journey.number is Some,
        e.stop.departure is Some,
        e.stop.delay is None,
    ensures
        record_of(e) matches Ok(r) && r.delay == 0,
{
}

/// A taken entry without a departure makes the whole extraction fail with
/// `MissingField(Departure)`, provided every earlier entry displays.
pub proof fn lemma_missing_departure_fails(b: Seq<StationBoardElementV>, n: int, m: int)
    requires
        0 <= m < n,
        m < b.len(),
        forall|j: int| 0 <= j < m ==> (#[trigger] record_of(b[j])) is Ok,
        b[m].journey.number is Some,
        b[m].stop.departure is None,
    ensures
        spec_extract(b, n) == Err::<Seq<LineInfoV>, ApiError>(
            ApiError::MissingField(DisplayField::Departure),
        ),
{
    let k = if n <= b.len() {
        n
    } else {
        b.len() as int
    };
    lemma_extract_err(b, k, 0, m);
}

impl StationBoardResponse {
    /// Takes the first `min(n, len)` board entries, in order, and projects
    /// each into its display record; the first entry that cannot display
    /// decides the error.
    #[verifier::loop_isolation(false)]
    pub fn extract_lines(&self, n: usize) -> (r: Result<Vec<LineInfo>, ApiError>)
        requires
            self@.wf(),
        ensures
            (match r {
                Ok(v) => spec_extract(self@.stationboard, n as int) == Ok::<
                    Seq<LineInfoV>,
                    ApiError,
                >(Seq::new(v@.len(), |t: int| v@[t]@)),
                Err(e) => spec_extract(self@.stationboard, n as int) == Err::<
                    Seq<LineInfoV>,
                    ApiError,
                >(e),
            }),
    {
        let ghost b = self@.stationboard;
        let len = self.stationboard.len();
        let k = if n <= len {
            n
        } else {
            len
        };
        let mut lines: Vec<LineInfo> = Vec::new();
        let mut i: usize = 0;
        while i < k
            invariant
                0 <= i <= k,
                lines@.len() == i,
                forall|j: int| 0 <= j < i ==> (#[trigger] record_of(b[j])) is Ok,
                forall|j: int| 0 <= j < i ==> (#[trigger] lines@[j])@ == record_of(b[j])->Ok_0,
            decreases k - i,
        {
            let e = &self.stationboard[i];
            proof {
                assert(e@ == b[i as int]);
                assert(b[i as int].wf());
            }
            let line_number = match &e.journey.number {
                Some(num) => num.clone(),
                None => {
                    proof {
                        lemma_extract_err(b, k as int, 0, i as int);
                    }
                    return Err(ApiError::MissingField(DisplayField::LineNumber));
                },
            };
            let departure = match e.stop.departure {
                Some(dep) => dep,
                None => {
                    proof {
                        lemma_extract_err(b, k as int, 0, i as int);
                    }
                    return Err(ApiError::MissingField(DisplayField::Departure));
                },
            };
            let delay = match e.stop.delay {
                Some(d) => d,
                None => 0,
            };
            let line = LineInfo {
                line_number,
                direction: e.journey.to.clone(),
                normal_departure: departure.hhmm_string(),
                delay,
            };
            proof {
                assert(line@ =~= record_of(b[i as int])->Ok_0);
            }
            lines.push(line);
            i = i + 1;
        }
        proof {
            lemma_extract_ok(b, k as int, 0);
            assert(Seq::new((k - 0) as nat, |t: int| record_of(b[0 + t])->Ok_0) =~= Seq::new(
                lines@.len(),
                |t: int| lines@[t]@,
            ));
        }
        Ok(lines)
    }
}

/// The four fields of a record, tab-separated, with no trailing tab.
pub open spec fn line_chars(l: LineInfoV) -> Seq<char> {
    l.line_number + seq!['\t'] + l.direction + seq!['\t'] + l.normal_departure + seq!['\t']
        + int_chars(l.delay as int)
}

impl LineInfo {
    /// Writes the record as its display line.
    pub fn to_line(&self) -> (r: String)
        ensures
            r@ == line_chars(self@),
    {
        let mut r = self.line_number.clone();
        r.append("\t");
        r.append(self.direction.as_str());
        r.append("\t");
        r.append(self.normal_departure.as_str());
        r.append("\t");
        r.append(i32_string(self.delay).as_str());
        proof {
            reveal_strlit("\t");
            assert(r@ =~= line_chars(self@));
        }
        r
    }
}

/// All records, each as its line terminated by one newline; no header.
pub open spec fn rendered_lines(ls: Seq<LineInfoV>) -> Seq<char>
    decreases ls.len(),
{
    if ls.len() == 0 {
        Seq::empty()
    } else {
        rendered_lines(ls.drop_last()) + line_chars(ls.last()) + seq!['\n']
    }
}

/// Writes every record as one line with a newline terminator, in order:
/// the text that is printed and written to the output file.
#[verifier::loop_isolation(false)]
pub fn render_lines(lines: &Vec<LineInfo>) -> (r: String)
    ensures
        r@ == rendered_lines(Seq::new(lines@.len(), |t: int| lines@[t]@)),
{
    let ghost ls = Seq::new(lines@.len(), |t: int| lines@[t]@);
    let mut r = String::new();
    let mut i: usize = 0;
    while i < lines.len()
        invariant
            0 <= i <= lines@.len(),
            r@ == rendered_lines(ls.take(i as int)),
        decreases lines@.len() - i,
    {
        r.append(lines[i].to_line().as_str());
        r.append("\n");
        proof {
            reveal_strlit("\n");
            assert(ls.take(i + 1).drop_last() =~= ls.take(i as int));
            assert(ls.take(i + 1).last() == ls[i as int]);
            assert(r@ =~= rendered_lines(ls.take(i + 1)));
        }
        i = i + 1;
    }
    proof {
        assert(ls.take(ls.len() as int) =~= ls);
    }
    r
}

} // verus!
