use vstd::prelude::*;
use crate::digits::{digit_char, digit_str, digit_val, digit_value, is_digit_char};

verus! {

/// An instant written as a civil (proleptic Gregorian) date, a wall-clock
/// time, and a fixed offset from UTC, exactly the information the wire
/// format `YYYY-MM-DDTHH:MM:SS+HHMM` carries. The offset is kept as given,
/// not normalized to any zone; equality of instants goes through
/// `instant_seconds`.
#[derive(Clone, Copy, Debug, PartialEq, Eq, Structural)]
pub struct Timestamp {
    pub year: u32,
    pub month: u32,
    pub day: u32,
    pub hour: u32,
    pub minute: u32,
    pub second: u32,
    /// Offset of the wall clock from UTC, in minutes, positive eastwards.
    pub offset_minutes: i32,
}

pub open spec fn is_leap_year(y: int) -> bool {
    (y % 4 == 0 && y % 100 != 0) || y % 400 == 0
}

pub open spec fn days_in_month(y: int, m: int) -> int {
    if m == 2 {
        if is_leap_year(y) {
            29
        } else {
            28
        }
    } else if m == 4 || m == 6 || m == 9 || m == 11 {
        30
    } else {
        31
    }
}

/// How many leap years lie in `[0, y)`.
pub open spec fn leap_years_before(y: int) -> int {
    (y + 3) / 4 - (y + 99) / 100 + (y + 399) / 400
}

/// Days from the first day of year `y` to the first day of its month `m`.
pub open spec fn days_before_month(y: int, m: int) -> int {
    let plain: int = if m == 1 {
        0
    } else if m == 2 {
        31
    } else if m == 3 {
        59
    } else if m == 4 {
        90
    } else if m == 5 {
        120
    } else if m == 6 {
        151
    } else if m == 7 {
        181
    } else if m == 8 {
        212
    } else if m == 9 {
        243
    } else if m == 10 {
        273
    } else if m == 11 {
        304
    } else {
        334
    };
    if m > 2 && is_leap_year(y) {
        plain + 1
    } else {
        plain
    }
}

impl Timestamp {
    /// A well-formed wire timestamp: a real calendar date, a time of day,
    /// and an offset below one day, as the fixed format can carry them.
    pub open spec fn wf(self) -> bool {
        &&& self.year <= 9999
        &&& 1 <= self.month <= 12
        &&& 1 <= self.day <= days_in_month(self.year as int, self.month as int)
        &&& self.hour <= 23
        &&& self.minute <= 59
        &&& self.second <= 59
        &&& -1439 <= self.offset_minutes <= 1439
    }

    /// The day's number in the proleptic Gregorian calendar, counted from
    /// the first of January of year zero.
    pub open spec fn day_number(self) -> int {
        365 * self.year + leap_years_before(self.year as int) + days_before_month(
            self.year as int,
            self.month as int,
        ) + self.day - 1
    }

    /// The point in time, in seconds from midnight UTC of day zero. Two
    /// timestamps written with different offsets denote the same instant
    /// exactly when these values agree.
    pub open spec fn instant_seconds(self) -> int {
        ((self.day_number() * 1440 + self.hour * 60 + self.minute) - self.offset_minutes) * 60
            + self.second
    }
}

pub fn is_leap_year_exec(y: u32) -> (r: bool)
    ensures
        r == is_leap_year(y as int),
{
    (y % 4 == 0 && y % 100 != 0) || y % 400 == 0
}

pub fn days_in_month_exec(y: u32, m: u32) -> (r: u32)
    ensures
        r == days_in_month(y as int, m as int),
{
    if m == 2 {
        if is_leap_year_exec(y) {
            29
        } else {
            28
        }
    } else if m == 4 || m == 6 || m == 9 || m == 11 {
        30
    } else {
        31
    }
}

impl Timestamp {
    /// Computes `instant_seconds`, for comparing two timestamps as points
    /// in time.
    pub fn epoch_seconds(&self) -> (r: i64)
        requires
            self.wf(),
        ensures
            r == self.instant_seconds(),
    {
        let y = self.year;
        let leaps: u32 = (y + 3) / 4 - (y + 99) / 100 + (y + 399) / 400;
        let before_month: u32 = {
            let plain: u32 = if self.month == 1 {
                0
            } else if self.month == 2 {
                31
            } else if self.month == 3 {
                59
            } else if self.month == 4 {
                90
            } else if self.month == 5 {
                120
            } else if self.month == 6 {
                151
            } else if self.month == 7 {
                181
            } else if self.month == 8 {
                212
            } else if self.month == 9 {
                243
            } else if self.month == 10 {
                273
            } else if self.month == 11 {
                304
            } else {
                334
            };
            if self.month > 2 && is_leap_year_exec(y) {
                plain + 1
            } else {
                plain
            }
        };
        let day_number: i64 = 365 * (y as i64) + (leaps as i64) + (before_month as i64) + (self.day
            as i64) - 1;
        ((day_number * 1440 + (self.hour as i64) * 60 + (self.minute as i64)) - (self.offset_minutes
            as i64)) * 60 + (self.second as i64)
    }

    /// Whether two timestamps denote the same point in time, whatever
    /// offsets they were written with.
    pub fn same_instant(&self, other: &Timestamp) -> (r: bool)
        requires
            self.wf(),
            other.wf(),
        ensures
            r == (self.instant_seconds() == other.instant_seconds()),
    {
        self.epoch_seconds() == other.epoch_seconds()
    }
}

/// The five characters `HH:MM` of a timestamp's wall-clock time.
pub open spec fn hhmm_chars(t: Timestamp) -> Seq<char> {
    seq![
        digit_char(t.hour as int / 10),
        digit_char(t.hour as int % 10),
        ':',
        digit_char(t.minute as int / 10),
        digit_char(t.minute as int % 10),
    ]
}

/// The 24 characters `YYYY-MM-DDTHH:MM:SS+HHMM` of a timestamp, the offset
/// sign being `+` for an offset of zero.
pub open spec fn timestamp_chars(t: Timestamp) -> Seq<char> {
    let y = t.year as int;
    let mag = if t.offset_minutes >= 0 {
        t.offset_minutes as int
    } else {
        -(t.offset_minutes as int)
    };
    seq![
        digit_char(y / 1000),
        digit_char(y % 1000 / 100),
        digit_char(y % 1000 % 100 / 10),
        digit_char(y % 1000 % 100 % 10),
        '-',
        digit_char(t.month as int / 10),
        digit_char(t.month as int % 10),
        '-',
        digit_char(t.day as int / 10),
        digit_char(t.day as int % 10),
        'T',
        digit_char(t.hour as int / 10),
        digit_char(t.hour as int % 10),
        ':',
        digit_char(t.minute as int / 10),
        digit_char(t.minute as int % 10),
        ':',
        digit_char(t.second as int / 10),
        digit_char(t.second as int % 10),
        (if t.offset_minutes >= 0 {
            '+'
        } else {
            '-'
        }),
        digit_char(mag / 60 / 10),
        digit_char(mag / 60 % 10),
        digit_char(mag % 60 / 10),
        digit_char(mag % 60 % 10),
    ]
}

pub open spec fn d2(s: Seq<char>, i: int) -> int {
    digit_val(s[i]) * 10 + digit_val(s[i + 1])
}

pub open spec fn d4(s: Seq<char>, i: int) -> int {
    digit_val(s[i]) * 1000 + digit_val(s[i + 1]) * 100 + digit_val(s[i + 2]) * 10 + digit_val(
        s[i + 3],
    )
}

/// Reads the fixed wire format; `None` on any text that is not 24
/// characters of that exact shape naming a real calendar date, a time of
/// day, and an offset of at most 23 hours 59 minutes.
pub open spec fn spec_parse_timestamp(s: Seq<char>) -> Option<Timestamp> {
    if s.len() == 24 && is_digit_char(s[0]) && is_digit_char(s[1]) && is_digit_char(s[2])
        && is_digit_char(s[3]) && s[4] == '-' && is_digit_char(s[5]) && is_digit_char(s[6]) && s[7]
        == '-' && is_digit_char(s[8]) && is_digit_char(s[9]) && s[10] == 'T' && is_digit_char(s[11])
        && is_digit_char(s[12]) && s[13] == ':' && is_digit_char(s[14]) && is_digit_char(s[15])
        && s[16] == ':' && is_digit_char(s[17]) && is_digit_char(s[18]) && (s[19] == '+' || s[19]
        == '-') && is_digit_char(s[20]) && is_digit_char(s[21]) && is_digit_char(s[22])
        && is_digit_char(s[23]) {
        let year = d4(s, 0);
        let month = d2(s, 5);
        let day = d2(s, 8);
        let hour = d2(s, 11);
        let minute = d2(s, 14);
        let second = d2(s, 17);
        let oh = d2(s, 20);
        let om = d2(s, 22);
        if 1 <= month <= 12 && 1 <= day <= days_in_month(year, month) && hour <= 23 && minute <= 59
            && second <= 59 && oh <= 23 && om <= 59 {
            Some(
                Timestamp {
                    year: year as u32,
                    month: month as u32,
                    day: day as u32,
                    hour: hour as u32,
                    minute: minute as u32,
                    second: second as u32,
                    offset_minutes: (if s[19] == '+' {
                        oh * 60 + om
                    } else {
                        -(oh * 60 + om)
                    }) as i32,
                },
            )
        } else {
            None
        }
    } else {
        None
    }
}

impl Timestamp {
    /// Parses the wire format `YYYY-MM-DDTHH:MM:SS+HHMM`.
    pub fn parse_str(s: &str) -> (r: Option<Timestamp>)
        ensures
            r == spec_parse_timestamp(s@),
    {
        if s.unicode_len() != 24 {
            return None;
        }
        let c0 = s.get_char(0);
        let c1 = s.get_char(1);
        let c2 = s.get_char(2);
        let c3 = s.get_char(3);
        let c4 = s.get_char(4);
        let c5 = s.get_char(5);
        let c6 = s.get_char(6);
        let c7 = s.get_char(7);
        let c8 = s.get_char(8);
        let c9 = s.get_char(9);
        let c10 = s.get_char(10);
        let c11 = s.get_char(11);
        let c12 = s.get_char(12);
        let c13 = s.get_char(13);
        let c14 = s.get_char(14);
        let c15 = s.get_char(15);
        let c16 = s.get_char(16);
        let c17 = s.get_char(17);
        let c18 = s.get_char(18);
        let c19 = s.get_char(19);
        let c20 = s.get_char(20);
        let c21 = s.get_char(21);
        let c22 = s.get_char(22);
        let c23 = s.get_char(23);
        let d0 = digit_value(c0);
        let d1 = digit_value(c1);
        let d2v = digit_value(c2);
        let d3 = digit_value(c3);
        let d5 = digit_value(c5);
        let d6 = digit_value(c6);
        let d8 = digit_value(c8);
        let d9 = digit_value(c9);
        let d11 = digit_value(c11);
        let d12 = digit_value(c12);
        let d14 = digit_value(c14);
        let d15 = digit_value(c15);
        let d17 = digit_value(c17);
        let d18 = digit_value(c18);
        let d20 = digit_value(c20);
        let d21 = digit_value(c21);
        let d22 = digit_value(c22);
        let d23 = digit_value(c23);
        if d0 == 10 || d1 == 10 || d2v == 10 || d3 == 10 || c4 != '-' || d5 == 10 || d6 == 10 || c7
            != '-' || d8 == 10 || d9 == 10 || c10 != 'T' || d11 == 10 || d12 == 10 || c13 != ':'
            || d14 == 10 || d15 == 10 || c16 != ':' || d17 == 10 || d18 == 10 || (c19 != '+' && c19
            != '-') || d20 == 10 || d21 == 10 || d22 == 10 || d23 == 10 {
            return None;
        }
        let year: u32 = d0 * 1000 + d1 * 100 + d2v * 10 + d3;
        let month: u32 = d5 * 10 + d6;
        let day: u32 = d8 * 10 + d9;
        let hour: u32 = d11 * 10 + d12;
        let minute: u32 = d14 * 10 + d15;
        let second: u32 = d17 * 10 + d18;
        let oh: u32 = d20 * 10 + d21;
        let om: u32 = d22 * 10 + d23;
        if !(1 <= month && month <= 12) || !(1 <= day && day <= days_in_month_exec(year, month))
            || hour > 23 || minute > 59 || second > 59 || oh > 23 || om > 59 {
            return None;
        }
        let mag: i32 = (oh * 60 + om) as i32;
        Some(
            Timestamp {
                year,
                month,
                day,
                hour,
                minute,
                second,
                offset_minutes: if c19 == '+' {
                    mag
                } else {
                    -mag
                },
            },
        )
    }

    /// Writes the wire format back; the inverse of `parse_str` on
    /// well-formed timestamps (see `lemma_timestamp_roundtrip`).
    #[verifier::rlimit(60)]
    pub fn format_string(&self) -> (r: String)
        requires
            self.wf(),
        ensures
            r@ == timestamp_chars(*self),
    {
        let y = self.year;
        let mut r = String::from_str(digit_str(y / 1000));
        r.append(digit_str(y % 1000 / 100));
        r.append(digit_str(y % 1000 % 100 / 10));
        r.append(digit_str(y % 1000 % 100 % 10));
        r.append("-");
        r.append(digit_str(self.month / 10));
        r.append(digit_str(self.month % 10));
        r.append("-");
        r.append(digit_str(self.day / 10));
        r.append(digit_str(self.day % 10));
        r.append("T");
        r.append(digit_str(self.hour / 10));
        r.append(digit_str(self.hour % 10));
        r.append(":");
        r.append(digit_str(self.minute / 10));
        r.append(digit_str(self.minute % 10));
        r.append(":");
        r.append(digit_str(self.second / 10));
        r.append(digit_str(self.second % 10));
        let mag: u32 = if self.offset_minutes >= 0 {
            self.offset_minutes as u32
        } else {
            (-(self.offset_minutes as i64)) as u32
        };
        if self.offset_minutes >= 0 {
            r.append("+");
        } else {
            r.append("-");
        }
        r.append(digit_str(mag / 60 / 10));
        r.append(digit_str(mag / 60 % 10));
        r.append(digit_str(mag % 60 / 10));
        r.append(digit_str(mag % 60 % 10));
        proof {
            reveal_strlit("-");
            reveal_strlit("T");
            reveal_strlit(":");
            reveal_strlit("+");
            assert(r@ =~= timestamp_chars(*self));
        }
        r
    }

    /// Writes the wall-clock time of day as `HH:MM`.
    pub fn hhmm_string(&self) -> (r: String)
        requires
            self.wf(),
        ensures
            r@ == hhmm_chars(*self),
    {
        let mut r = String::from_str(digit_str(self.hour / 10));
        r.append(digit_str(self.hour % 10));
        r.append(":");
        r.append(digit_str(self.minute / 10));
        r.append(digit_str(self.minute % 10));
        proof {
            reveal_strlit(":");
            assert(r@ =~= hhmm_chars(*self));
        }
        r
    }
}

/// Whatever parses is well-formed: the format can carry nothing else.
pub proof fn lemma_parse_timestamp_wf(s: Seq<char>)
    ensures
        spec_parse_timestamp(s) matches Some(t) ==> t.wf(),
{
}

/// Writing a well-formed timestamp and reading the text back yields the
/// same timestamp.
#[verifier::rlimit(60)]
pub proof fn lemma_timestamp_roundtrip(t: Timestamp)
    requires
        t.wf(),
    ensures
        spec_parse_timestamp(timestamp_chars(t)) == Some(t),
{
    let s = timestamp_chars(t);
    let y = t.year as int;
    let mag0 = if t.offset_minutes >= 0 {
        t.offset_minutes as int
    } else {
        -(t.offset_minutes as int)
    };
    crate::digits::lemma_digit_roundtrip(y / 1000);
    crate::digits::lemma_digit_roundtrip(y % 1000 / 100);
    crate::digits::lemma_digit_roundtrip(y % 1000 % 100 / 10);
    crate::digits::lemma_digit_roundtrip(y % 1000 % 100 % 10);
    crate::digits::lemma_digit_roundtrip(t.month as int / 10);
    crate::digits::lemma_digit_roundtrip(t.month as int % 10);
    crate::digits::lemma_digit_roundtrip(t.day as int / 10);
    crate::digits::lemma_digit_roundtrip(t.day as int % 10);
    crate::digits::lemma_digit_roundtrip(t.hour as int / 10);
    crate::digits::lemma_digit_roundtrip(t.hour as int % 10);
    crate::digits::lemma_digit_roundtrip(t.minute as int / 10);
    crate::digits::lemma_digit_roundtrip(t.minute as int % 10);
    crate::digits::lemma_digit_roundtrip(t.second as int / 10);
    crate::digits::lemma_digit_roundtrip(t.second as int % 10);
    crate::digits::lemma_digit_roundtrip(mag0 / 60 / 10);
    crate::digits::lemma_digit_roundtrip(mag0 / 60 % 10);
    crate::digits::lemma_digit_roundtrip(mag0 % 60 / 10);
    crate::digits::lemma_digit_roundtrip(mag0 % 60 % 10);
    assert(y == y / 1000 * 1000 + y % 1000);
    assert(y % 1000 == y % 1000 / 100 * 100 + y % 1000 % 100);
    assert(y % 1000 % 100 == y % 1000 % 100 / 10 * 10 + y % 1000 % 100 % 10);
    assert(d4(s, 0) == y);
    assert(d2(s, 5) == t.month as int);
    assert(d2(s, 8) == t.day as int);
    assert(d2(s, 11) == t.hour as int);
    assert(d2(s, 14) == t.minute as int);
    assert(d2(s, 17) == t.second as int);
    assert(mag0 == mag0 / 60 * 60 + mag0 % 60);
    assert(d2(s, 20) == mag0 / 60);
    assert(d2(s, 22) == mag0 % 60);
    assert(mag0 / 60 <= 23);
    assert(spec_parse_timestamp(s) == Some(t));
}

} // verus!
