use vstd::prelude::*;
use vstd::string::StrSliceExecFns;
use vstd::utf8::{encode_utf8, is_ascii_chars, is_ascii_chars_encode_utf8};
use crate::digits::{dec_chars, digit_char, digit_str, u32_string};
use crate::errors::ApiError;
use crate::timestamp::Timestamp;

verus! {

/// The fixed stationboard endpoint all requests go against.
pub open spec fn endpoint_chars() -> Seq<char> {
    "https://transport.opendata.ch/v1/stationboard"@
}

fn endpoint() -> (r: &'static str)
    ensures
        r@ == endpoint_chars(),
{
    "https://transport.opendata.ch/v1/stationboard"
}

// ---------------------------------------------------------------------------
// Query serialization: the standard form-urlencoding of a key=value list.
// Digits, letters and `*-._` pass unchanged, a space becomes `+`, every
// other byte of the value's UTF-8 writing becomes `%` and two upper-case
// hex digits.
// ---------------------------------------------------------------------------
pub open spec fn unreserved_byte(b: u8) -> bool {
    (0x30 <= b <= 0x39) || (0x41 <= b <= 0x5A) || (0x61 <= b <= 0x7A) || b == 0x2A || b == 0x2D
        || b == 0x2E || b == 0x5F
}

/// The upper-case hex digit for `0 <= d < 16`.
pub open spec fn hex_byte(d: int) -> u8 {
    if d < 10 {
        (0x30 + d) as u8
    } else {
        (0x37 + d) as u8
    }
}

pub open spec fn enc_byte(b: u8) -> Seq<u8> {
    if unreserved_byte(b) {
        seq![b]
    } else if b == 0x20 {
        seq![0x2B]
    } else {
        seq![0x25, hex_byte(b as int / 16), hex_byte(b as int % 16)]
    }
}

pub open spec fn enc_bytes(s: Seq<u8>) -> Seq<u8>
    decreases s.len(),
{
    if s.len() == 0 {
        Seq::empty()
    } else {
        enc_bytes(s.drop_last()) + enc_byte(s.last())
    }
}

/// One `key=value` entry, both sides encoded.
pub open spec fn pair_bytes(p: (Seq<u8>, Seq<u8>)) -> Seq<u8> {
    enc_bytes(p.0) + seq![0x3D] + enc_bytes(p.1)
}

/// The entries joined with `&`.
pub open spec fn render_pairs(ps: Seq<(Seq<u8>, Seq<u8>)>) -> Seq<u8>
    decreases ps.len(),
{
    if ps.len() == 0 {
        Seq::empty()
    } else if ps.len() == 1 {
        pair_bytes(ps[0])
    } else {
        render_pairs(ps.drop_last()) + seq![0x26] + pair_bytes(ps.last())
    }
}

/// The characters `YYYY-MM-DD HH:MM` of the `datetime` parameter: local
/// wall clock, minute precision, seconds and offset dropped.
pub open spec fn datetime_param_chars(t: Timestamp) -> Seq<char> {
    let y = t.year as int;
    seq![
        digit_char(y / 1000),
        digit_char(y % 1000 / 100),
        digit_char(y % 1000 % 100 / 10),
        digit_char(y % 1000 % 100 % 10),
        '-',
        digit_char(t.month as int / 10),
        digit_char(t.month as int % 10),
        '-',
        digit_char(t.day as int / 10),
        digit_char(t.day as int % 10),
        ' ',
        digit_char(t.hour as int / 10),
        digit_char(t.hour as int % 10),
        ':',
        digit_char(t.minute as int / 10),
        digit_char(t.minute as int % 10),
    ]
}

pub open spec fn opt_entry(k: Seq<char>, v: Option<Seq<char>>) -> Seq<(Seq<u8>, Seq<u8>)> {
    match v {
        Some(s) => seq![(encode_utf8(k), encode_utf8(s))],
        None => Seq::empty(),
    }
}

/// The query entries of a parameter set, in the fixed order `station`,
/// `id`, `type`, `limit`, the `transportations` in their given order, then
/// `datetime`: exactly one entry for each present scalar parameter and one
/// for each element of `transportations`.
pub open spec fn spec_query_pairs(
    station: Option<Seq<char>>,
    id: Option<Seq<char>>,
    limit: Option<u32>,
    transportations: Option<Seq<Seq<char>>>,
    datetime: Option<Timestamp>,
    kind: Option<Seq<char>>,
) -> Seq<(Seq<u8>, Seq<u8>)> {
    opt_entry("station"@, station) + opt_entry("id"@, id) + opt_entry("type"@, kind) + (match limit {
        Some(l) => seq![(encode_utf8("limit"@), encode_utf8(dec_chars(l as int)))],
        None => Seq::empty(),
    }) + (match transportations {
        Some(ts) => Seq::new(ts.len(), |i: int| (encode_utf8("transportations"@), encode_utf8(ts[i]))),
        None => Seq::empty(),
    }) + (match datetime {
        Some(t) => seq![(encode_utf8("datetime"@), encode_utf8(datetime_param_chars(t)))],
        None => Seq::empty(),
    })
}

/// The request URL of a parameter set: the endpoint, `?`, and the encoded
/// query. At least one of `station` and `id` is mandatory; a set with
/// neither is refused with `InvalidRequest` and nothing else is.
pub open spec fn spec_build_url(
    station: Option<Seq<char>>,
    id: Option<Seq<char>>,
    limit: Option<u32>,
    transportations: Option<Seq<Seq<char>>>,
    datetime: Option<Timestamp>,
    kind: Option<Seq<char>>,
) -> Result<Seq<u8>, ApiError> {
    if station is None && id is None {
        Err(ApiError::InvalidRequest)
    } else {
        Ok(
            encode_utf8(endpoint_chars()) + seq![0x3F] + render_pairs(
                spec_query_pairs(station, id, limit, transportations, datetime, kind),
            ),
        )
    }
}

/// Building fails exactly when both `station` and `id` are absent, and a
/// built query holds one entry per present scalar parameter and one per
/// element of `transportations`.
pub proof fn lemma_build_url_entries(
    station: Option<Seq<char>>,
    id: Option<Seq<char>>,
    limit: Option<u32>,
    transportations: Option<Seq<Seq<char>>>,
    datetime: Option<Timestamp>,
    kind: Option<Seq<char>>,
)
    ensures
        spec_build_url(station, id, limit, transportations, datetime, kind) is Err <==> (station
            is None && id is None),
        spec_build_url(station, id, limit, transportations, datetime, kind) is Err
            ==> spec_build_url(station, id, limit, transportations, datetime, kind) == Err::<
            Seq<u8>,
            ApiError,
        >(ApiError::InvalidRequest),
        spec_query_pairs(station, id, limit, transportations, datetime, kind).len() == (if station
            is Some {
            1int
        } else {
            0int
        }) + (if id is Some {
            1int
        } else {
            0int
        }) + (if kind is Some {
            1int
        } else {
            0int
        }) + (if limit is Some {
            1int
        } else {
            0int
        }) + (match transportations {
            Some(ts) => ts.len() as int,
            None => 0int,
        }) + (if datetime is Some {
            1int
        } else {
            0int
        }),
{
}

pub open spec fn ascii_bytes(s: Seq<u8>) -> bool {
    forall|i: int| 0 <= i < s.len() ==> s[i] < 0x80
}

/// Whatever goes in, the encoding writes ASCII bytes only.
proof fn lemma_enc_bytes_ascii(s: Seq<u8>)
    ensures
        ascii_bytes(enc_bytes(s)),
    decreases s.len(),
{
    if s.len() > 0 {
        lemma_enc_bytes_ascii(s.drop_last());
        assert(ascii_bytes(enc_byte(s.last())));
    }
}

proof fn lemma_pair_ascii(p: (Seq<u8>, Seq<u8>))
    ensures
        ascii_bytes(pair_bytes(p)),
{
    lemma_enc_bytes_ascii(p.0);
    lemma_enc_bytes_ascii(p.1);
}

proof fn lemma_render_ascii(ps: Seq<(Seq<u8>, Seq<u8>)>)
    ensures
        ascii_bytes(render_pairs(ps)),
    decreases ps.len(),
{
    if ps.len() == 1 {
        lemma_pair_ascii(ps[0]);
    } else if ps.len() > 1 {
        lemma_render_ascii(ps.drop_last());
        lemma_pair_ascii(ps.last());
    }
}

proof fn lemma_endpoint_ascii()
    ensures
        ascii_bytes(encode_utf8(endpoint_chars())),
{
    reveal_strlit("https://transport.opendata.ch/v1/stationboard");
    assert(is_ascii_chars(endpoint_chars()));
    is_ascii_chars_encode_utf8(endpoint_chars());
}

/// How many entries of a query carry the key `k`.
pub open spec fn key_count(ps: Seq<(Seq<u8>, Seq<u8>)>, k: Seq<u8>) -> int
    decreases ps.len(),
{
    if ps.len() == 0 {
        0
    } else {
        (if ps[0].0 == k {
            1int
        } else {
            0int
        }) + key_count(ps.skip(1), k)
    }
}

proof fn lemma_key_count_add(a: Seq<(Seq<u8>, Seq<u8>)>, b: Seq<(Seq<u8>, Seq<u8>)>, k: Seq<u8>)
    ensures
        key_count(a + b, k) == key_count(a, k) + key_count(b, k),
    decreases a.len(),
{
    if a.len() == 0 {
        assert(a + b =~= b);
    } else {
        assert((a + b)[0] == a[0]);
        assert((a + b).skip(1) =~= a.skip(1) + b);
        lemma_key_count_add(a.skip(1), b, k);
    }
}

proof fn lemma_key_count_homog(s: Seq<(Seq<u8>, Seq<u8>)>, k: Seq<u8>)
    ensures
        (forall|i: int| 0 <= i < s.len() ==> (#[trigger] s[i]).0 == k) ==> key_count(s, k)
            == s.len(),
        (forall|i: int| 0 <= i < s.len() ==> (#[trigger] s[i]).0 != k) ==> key_count(s, k) == 0,
    decreases s.len(),
{
    if s.len() > 0 {
        lemma_key_count_homog(s.skip(1), k);
        assert(forall|i: int| 0 <= i < s.skip(1).len() ==> (#[trigger] s.skip(1)[i]) == s[i + 1]);
    }
}

/// How often any key occurs in a parameter set's query: its own entry's
/// contribution and nothing else.
proof fn lemma_query_key_count(
    station: Option<Seq<char>>,
    id: Option<Seq<char>>,
    limit: Option<u32>,
    transportations: Option<Seq<Seq<char>>>,
    datetime: Option<Timestamp>,
    kind: Option<Seq<char>>,
    k: Seq<u8>,
)
    ensures
        key_count(spec_query_pairs(station, id, limit, transportations, datetime, kind), k) == (
        if station is Some && encode_utf8("station"@) == k {
            1int
        } else {
            0int
        }) + (if id is Some && encode_utf8("id"@) == k {
            1int
        } else {
            0int
        }) + (if kind is Some && encode_utf8("type"@) == k {
            1int
        } else {
            0int
        }) + (if limit is Some && encode_utf8("limit"@) == k {
            1int
        } else {
            0int
        }) + (match transportations {
            Some(ts) => if encode_utf8("transportations"@) == k {
                ts.len() as int
            } else {
                0int
            },
            None => 0int,
        }) + (if datetime is Some && encode_utf8("datetime"@) == k {
            1int
        } else {
            0int
        }),
{
    let s1 = opt_entry("station"@, station);
    let s2 = opt_entry("id"@, id);
    let s3 = opt_entry("type"@, kind);
    let s4: Seq<(Seq<u8>, Seq<u8>)> = match limit {
        Some(l) => seq![(encode_utf8("limit"@), encode_utf8(dec_chars(l as int)))],
        None => Seq::empty(),
    };
    let s5: Seq<(Seq<u8>, Seq<u8>)> = match transportations {
        Some(ts) => Seq::new(ts.len(), |i: int| (encode_utf8("transportations"@), encode_utf8(ts[i]))),
        None => Seq::empty(),
    };
    let s6: Seq<(Seq<u8>, Seq<u8>)> = match datetime {
        Some(t) => seq![(encode_utf8("datetime"@), encode_utf8(datetime_param_chars(t)))],
        None => Seq::empty(),
    };
    lemma_key_count_add(s1, s2, k);
    lemma_key_count_add(s1 + s2, s3, k);
    lemma_key_count_add(s1 + s2 + s3, s4, k);
    lemma_key_count_add(s1 + s2 + s3 + s4, s5, k);
    lemma_key_count_add(s1 + s2 + s3 + s4 + s5, s6, k);
    lemma_key_count_homog(s1, k);
    lemma_key_count_homog(s2, k);
    lemma_key_count_homog(s3, k);
    lemma_key_count_homog(s4, k);
    lemma_key_count_homog(s5, k);
    lemma_key_count_homog(s6, k);
}

/// A built query carries exactly one entry under each present scalar
/// parameter's key, one entry under `transportations` per element given,
/// and no entry under an absent parameter's key.
pub proof fn lemma_one_entry_per_parameter(
    station: Option<Seq<char>>,
    id: Option<Seq<char>>,
    limit: Option<u32>,
    transportations: Option<Seq<Seq<char>>>,
    datetime: Option<Timestamp>,
    kind: Option<Seq<char>>,
)
    ensures
        ({
            let ps = spec_query_pairs(station, id, limit, transportations, datetime, kind);
            &&& key_count(ps, encode_utf8("station"@)) == (if station is Some {
                1int
            } else {
                0int
            })
            &&& key_count(ps, encode_utf8("id"@)) == (if id is Some {
                1int
            } else {
                0int
            })
            &&& key_count(ps, encode_utf8("type"@)) == (if kind is Some {
                1int
            } else {
                0int
            })
            &&& key_count(ps, encode_utf8("limit"@)) == (if limit is Some {
                1int
            } else {
                0int
            })
            &&& key_count(ps, encode_utf8("transportations"@)) == (match transportations {
                Some(ts) => ts.len() as int,
                None => 0int,
            })
            &&& key_count(ps, encode_utf8("datetime"@)) == (if datetime is Some {
                1int
            } else {
                0int
            })
        }),
{
    reveal_strlit("station");
    reveal_strlit("id");
    reveal_strlit("type");
    reveal_strlit("limit");
    reveal_strlit("transportations");
    reveal_strlit("datetime");
    assert(is_ascii_chars("station"@));
    assert(is_ascii_chars("id"@));
    assert(is_ascii_chars("type"@));
    assert(is_ascii_chars("limit"@));
    assert(is_ascii_chars("transportations"@));
    assert(is_ascii_chars("datetime"@));
    is_ascii_chars_encode_utf8("station"@);
    is_ascii_chars_encode_utf8("id"@);
    is_ascii_chars_encode_utf8("type"@);
    is_ascii_chars_encode_utf8("limit"@);
    is_ascii_chars_encode_utf8("transportations"@);
    is_ascii_chars_encode_utf8("datetime"@);
    lemma_query_key_count(
        station,
        id,
        limit,
        transportations,
        datetime,
        kind,
        encode_utf8("station"@),
    );
    lemma_query_key_count(station, id, limit, transportations, datetime, kind, encode_utf8("id"@));
    lemma_query_key_count(
        station,
        id,
        limit,
        transportations,
        datetime,
        kind,
        encode_utf8("type"@),
    );
    lemma_query_key_count(
        station,
        id,
        limit,
        transportations,
        datetime,
        kind,
        encode_utf8("limit"@),
    );
    lemma_query_key_count(
        station,
        id,
        limit,
        transportations,
        datetime,
        kind,
        encode_utf8("transportations"@),
    );
    lemma_query_key_count(
        station,
        id,
        limit,
        transportations,
        datetime,
        kind,
        encode_utf8("datetime"@),
    );
}

fn hex_byte_exec(d: u8) -> (r: u8)
    requires
        d < 16,
    ensures
        r == hex_byte(d as int),
{
    if d < 10 {
        0x30 + d
    } else {
        0x37 + d
    }
}

/// Appends the encoding of `bytes` to `out`.
#[verifier::loop_isolation(false)]
fn append_encoded(out: &mut Vec<u8>, bytes: &Vec<u8>)
    ensures
        final(out)@ == old(out)@ + enc_bytes(bytes@),
{
    let mut i: usize = 0;
    while i < bytes.len()
        invariant
            0 <= i <= bytes@.len(),
            out@ == old(out)@ + enc_bytes(bytes@.take(i as int)),
        decreases bytes@.len() - i,
    {
        let b = bytes[i];
        if (0x30 <= b && b <= 0x39) || (0x41 <= b && b <= 0x5A) || (0x61 <= b && b <= 0x7A) || b
            == 0x2A || b == 0x2D || b == 0x2E || b == 0x5F {
            out.push(b);
        } else if b == 0x20 {
            out.push(0x2B);
        } else {
            out.push(0x25);
            out.push(hex_byte_exec(b / 16));
            out.push(hex_byte_exec(b % 16));
        }
        proof {
            assert(bytes@.take(i + 1).drop_last() =~= bytes@.take(i as int));
            assert(bytes@.take(i + 1).last() == bytes@[i as int]);
            assert(out@ =~= old(out)@ + enc_bytes(bytes@.take(i + 1)));
        }
        i = i + 1;
    }
    proof {
        assert(bytes@.take(bytes@.len() as int) =~= bytes@);
    }
}

/// Writes the `datetime` parameter's value.
fn datetime_param_string(t: &Timestamp) -> (r: String)
    requires
        t.wf(),
    ensures
        r@ == datetime_param_chars(*t),
{
    let y = t.year;
    let mut r = String::from_str(digit_str(y / 1000));
    r.append(digit_str(y % 1000 / 100));
    r.append(digit_str(y % 1000 % 100 / 10));
    r.append(digit_str(y % 1000 % 100 % 10));
    r.append("-");
    r.append(digit_str(t.month / 10));
    r.append(digit_str(t.month % 10));
    r.append("-");
    r.append(digit_str(t.day / 10));
    r.append(digit_str(t.day % 10));
    r.append(" ");
    r.append(digit_str(t.hour / 10));
    r.append(digit_str(t.hour % 10));
    r.append(":");
    r.append(digit_str(t.minute / 10));
    r.append(digit_str(t.minute % 10));
    proof {
        reveal_strlit("-");
        reveal_strlit(" ");
        reveal_strlit(":");
        assert(r@ =~= datetime_param_chars(*t));
    }
    r
}

pub open spec fn opt_str_param(s: Option<&str>) -> Option<Seq<char>> {
    match s {
        Some(x) => Some(x@),
        None => None,
    }
}

pub open spec fn opt_trans_param(ts: Option<&Vec<String>>) -> Option<Seq<Seq<char>>> {
    match ts {
        Some(v) => Some(Seq::new(v@.len(), |i: int| v@[i]@)),
        None => None,
    }
}

pub open spec fn pairs_view(ps: Seq<(Vec<u8>, Vec<u8>)>) -> Seq<(Seq<u8>, Seq<u8>)> {
    Seq::new(ps.len(), |i: int| (ps[i].0@, ps[i].1@))
}

/// Builds the query entry list of a parameter set.
#[verifier::loop_isolation(false)]
#[verifier::rlimit(100)]
fn build_query_pairs(
    station: Option<&str>,
    id: Option<&str>,
    limit: Option<u32>,
    transportations: Option<&Vec<String>>,
    datetime: Option<Timestamp>,
    kind: Option<&str>,
) -> (r: Vec<(Vec<u8>, Vec<u8>)>)
    requires
        (datetime matches Some(t) ==> t.wf()),
    ensures
        pairs_view(r@) == spec_query_pairs(
            opt_str_param(station),
            opt_str_param(id),
            limit,
            opt_trans_param(transportations),
            datetime,
            opt_str_param(kind),
        ),
{
    let ghost gpairs = spec_query_pairs(
        opt_str_param(station),
        opt_str_param(id),
        limit,
        opt_trans_param(transportations),
        datetime,
        opt_str_param(kind),
    );
    let ghost seg1 = opt_entry("station"@, opt_str_param(station));
    let ghost seg2 = opt_entry("id"@, opt_str_param(id));
    let ghost seg3 = opt_entry("type"@, opt_str_param(kind));
    let ghost seg4: Seq<(Seq<u8>, Seq<u8>)> = match limit {
        Some(l) => seq![(encode_utf8("limit"@), encode_utf8(dec_chars(l as int)))],
        None => Seq::empty(),
    };
    let ghost seg5: Seq<(Seq<u8>, Seq<u8>)> = match opt_trans_param(transportations) {
        Some(ts) => Seq::new(ts.len(), |i: int| (encode_utf8("transportations"@), encode_utf8(ts[i]))),
        None => Seq::empty(),
    };
    let ghost seg6: Seq<(Seq<u8>, Seq<u8>)> = match datetime {
        Some(t) => seq![(encode_utf8("datetime"@), encode_utf8(datetime_param_chars(t)))],
        None => Seq::empty(),
    };
    let mut pairs: Vec<(Vec<u8>, Vec<u8>)> = Vec::new();
    match station {
        Some(s) => {
            pairs.push(("station".as_bytes_vec(), s.as_bytes_vec()));
        },
        None => {},
    }
    proof {
        assert(pairs_view(pairs@) =~= seg1);
    }
    match id {
        Some(s) => {
            pairs.push(("id".as_bytes_vec(), s.as_bytes_vec()));
        },
        None => {},
    }
    proof {
        assert(pairs_view(pairs@) =~= seg1 + seg2);
    }
    match kind {
        Some(s) => {
            pairs.push(("type".as_bytes_vec(), s.as_bytes_vec()));
        },
        None => {},
    }
    proof {
        assert(pairs_view(pairs@) =~= seg1 + seg2 + seg3);
    }
    match limit {
        Some(l) => {
            pairs.push(("limit".as_bytes_vec(), u32_string(l).as_str().as_bytes_vec()));
        },
        None => {},
    }
    proof {
        assert(pairs_view(pairs@) =~= seg1 + seg2 + seg3 + seg4);
    }
    let ghost before_trans = pairs_view(pairs@);
    match transportations {
        Some(ts) => {
            let mut i: usize = 0;
            while i < ts.len()
                invariant
                    0 <= i <= ts@.len(),
                    pairs@.len() == before_trans.len() + i,
                    pairs_view(pairs@).take(before_trans.len() as int) =~= before_trans,
                    forall|k: int|
                        0 <= k < i ==> pairs_view(pairs@)[before_trans.len() + k] == (
                            encode_utf8("transportations"@),
                            encode_utf8(ts@[k]@),
                        ),
                decreases ts@.len() - i,
            {
                pairs.push(("transportations".as_bytes_vec(), ts[i].as_str().as_bytes_vec()));
                i = i + 1;
            }
        },
        None => {},
    }
    proof {
        assert(pairs_view(pairs@) =~= before_trans + seg5);
    }
    match datetime {
        Some(t) => {
            pairs.push(("datetime".as_bytes_vec(), datetime_param_string(&t).as_str().as_bytes_vec()));
        },
        None => {},
    }
    proof {
        assert(pairs_view(pairs@) =~= seg1 + seg2 + seg3 + seg4 + seg5 + seg6);
        assert(gpairs == seg1 + seg2 + seg3 + seg4 + seg5 + seg6);
    }
    pairs
}

/// Renders the endpoint, `?`, and the encoded entries.
#[verifier::loop_isolation(false)]
fn render_url(pairs: &Vec<(Vec<u8>, Vec<u8>)>) -> (r: Vec<u8>)
    ensures
        r@ == encode_utf8(endpoint_chars()) + seq![0x3Fu8] + render_pairs(pairs_view(pairs@)),
{
    let mut out: Vec<u8> = endpoint().as_bytes_vec();
    out.push(0x3F);
    let ghost prefix = encode_utf8(endpoint_chars()) + seq![0x3Fu8];
    proof {
        assert(out@ =~= prefix);
    }
    let mut i: usize = 0;
    while i < pairs.len()
        invariant
            0 <= i <= pairs@.len(),
            out@ == prefix + render_pairs(pairs_view(pairs@).take(i as int)),
        decreases pairs@.len() - i,
    {
        if i > 0 {
            out.push(0x26);
        }
        append_encoded(&mut out, &pairs[i].0);
        out.push(0x3D);
        append_encoded(&mut out, &pairs[i].1);
        proof {
            let pv = pairs_view(pairs@);
            assert(pv.take(i + 1).drop_last() =~= pv.take(i as int));
            assert(pv.take(i + 1).last() == pv[i as int]);
            assert(out@ =~= prefix + render_pairs(pv.take(i + 1)));
        }
        i = i + 1;
    }
    proof {
        assert(pairs_view(pairs@).take(pairs@.len() as int) =~= pairs_view(pairs@));
    }
    out
}

/// Builds the fully encoded request URL, as its bytes, every one of them
/// ASCII. Fails with `InvalidRequest` exactly when both `station` and `id`
/// are absent.
pub fn build_stationboard_url(
    station: Option<&str>,
    id: Option<&str>,
    limit: Option<u32>,
    transportations: Option<&Vec<String>>,
    datetime: Option<Timestamp>,
    kind: Option<&str>,
) -> (r: Result<Vec<u8>, ApiError>)
    requires
        (datetime matches Some(t) ==> t.wf()),
    ensures
        (match r {
            Ok(u) => spec_build_url(
                opt_str_param(station),
                opt_str_param(id),
                limit,
                opt_trans_param(transportations),
                datetime,
                opt_str_param(kind),
            ) == Ok::<Seq<u8>, ApiError>(u@),
            Err(e) => spec_build_url(
                opt_str_param(station),
                opt_str_param(id),
                limit,
                opt_trans_param(transportations),
                datetime,
                opt_str_param(kind),
            ) == Err::<Seq<u8>, ApiError>(e),
        }),
        (r matches Ok(u) ==> ascii_bytes(u@)),
{
    if station.is_none() && id.is_none() {
        return Err(ApiError::InvalidRequest);
    }
    let pairs = build_query_pairs(station, id, limit, transportations, datetime, kind);
    let url = render_url(&pairs);
    proof {
        lemma_endpoint_ascii();
        lemma_render_ascii(pairs_view(pairs@));
    }
    Ok(url)
}

} // verus!
