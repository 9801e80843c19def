use vstd::prelude::*;

verus! {

/// The character for the decimal digit `d`.
pub open spec fn digit_char(d: int) -> char {
    if d == 0 {
        '0'
    } else if d == 1 {
        '1'
    } else if d == 2 {
        '2'
    } else if d == 3 {
        '3'
    } else if d == 4 {
        '4'
    } else if d == 5 {
        '5'
    } else if d == 6 {
        '6'
    } else if d == 7 {
        '7'
    } else if d == 8 {
        '8'
    } else {
        '9'
    }
}

/// The value of a decimal digit character; 10 marks every other character.
pub open spec fn digit_val(c: char) -> int {
    if c == '0' {
        0
    } else if c == '1' {
        1
    } else if c == '2' {
        2
    } else if c == '3' {
        3
    } else if c == '4' {
        4
    } else if c == '5' {
        5
    } else if c == '6' {
        6
    } else if c == '7' {
        7
    } else if c == '8' {
        8
    } else if c == '9' {
        9
    } else {
        10
    }
}

pub open spec fn is_digit_char(c: char) -> bool {
    digit_val(c) != 10
}

/// The decimal digits of `n >= 0`, most significant first, without leading
/// zeros (`0` itself is written as one digit).
pub open spec fn dec_chars(n: int) -> Seq<char>
    decreases n,
{
    if n <= 9 {
        seq![digit_char(n)]
    } else {
        dec_chars(n / 10).push(digit_char(n % 10))
    }
}

/// The decimal writing of any integer: a minus sign before the digits of the
/// magnitude when `n` is negative.
pub open spec fn int_chars(n: int) -> Seq<char> {
    if n < 0 {
        seq!['-'] + dec_chars(-n)
    } else {
        dec_chars(n)
    }
}

/// The value of a digit string, most significant digit first.
pub open spec fn digits_val(s: Seq<char>) -> int
    decreases s.len(),
{
    if s.len() == 0 {
        0
    } else {
        digits_val(s.drop_last()) * 10 + digit_val(s.last())
    }
}

pub open spec fn all_digits(s: Seq<char>) -> bool {
    forall|i: int| 0 <= i < s.len() ==> is_digit_char(s[i])
}

/// A canonical decimal integer token: at least one digit, no leading zero
/// unless the token is exactly `0`.
pub open spec fn canonical_digits(s: Seq<char>) -> bool {
    &&& s.len() >= 1
    &&& all_digits(s)
    &&& (s.len() == 1 || s[0] != '0')
}

pub open spec fn pow10(n: int) -> int
    decreases n,
{
    if n <= 0 {
        1
    } else {
        10 * pow10(n - 1)
    }
}

pub proof fn lemma_pow10_mono(m: int, n: int)
    requires
        m <= n,
    ensures
        0 < pow10(m) <= pow10(n),
    decreases n,
{
    if n <= 0 {
        assert(pow10(m) == 1) by {
            assert(m <= 0);
        }
    } else if m == n {
        lemma_pow10_mono(m - 1, n - 1);
    } else {
        lemma_pow10_mono(m, n - 1);
    }
}

pub proof fn lemma_pow10_values()
    ensures
        pow10(9) == 1000000000,
        pow10(10) == 10000000000,
{
    assert(pow10(0) == 1);
    assert(pow10(1) == 10);
    assert(pow10(2) == 100);
    assert(pow10(3) == 1000);
    assert(pow10(4) == 10000);
    assert(pow10(5) == 100000);
    assert(pow10(6) == 1000000);
    assert(pow10(7) == 10000000);
    assert(pow10(8) == 100000000);
    assert(pow10(9) == 1000000000);
    assert(pow10(10) == 10000000000);
}

/// A digit string's value lies below ten to its length.
pub proof fn lemma_digits_val_bounds(s: Seq<char>)
    requires
        all_digits(s),
    ensures
        0 <= digits_val(s) < pow10(s.len() as int),
    decreases s.len(),
{
    if s.len() == 0 {
    } else {
        assert(all_digits(s.drop_last())) by {
            assert(forall|i: int|
                0 <= i < s.drop_last().len() ==> s.drop_last()[i] == s[i] && is_digit_char(s[i]));
        }
        lemma_digits_val_bounds(s.drop_last());
        assert(0 <= digit_val(s.last()) <= 9);
    }
}

/// A canonical digit string of two or more digits is worth at least ten to
/// one less than its length.
pub proof fn lemma_canonical_min(s: Seq<char>)
    requires
        canonical_digits(s),
        s.len() >= 2,
    ensures
        digits_val(s) >= pow10(s.len() - 1),
    decreases s.len(),
{
    if s.len() == 2 {
        let t = s.drop_last();
        assert(is_digit_char(s[0]));
        assert(digit_val(s[0]) >= 1);
        assert(t.drop_last().len() == 0);
        assert(digits_val(t.drop_last()) == 0);
        assert(t.last() == s[0]);
        assert(digits_val(t) == digit_val(s[0]));
        assert(pow10(0) == 1);
        assert(pow10(1) == 10);
    } else {
        let t = s.drop_last();
        assert(canonical_digits(t)) by {
            assert(forall|i: int| 0 <= i < t.len() ==> t[i] == s[i] && is_digit_char(s[i]));
            assert(t[0] == s[0]);
        }
        lemma_canonical_min(t);
        assert(digit_val(s.last()) >= 0);
    }
}

/// Writing a digit and reading it back yields the digit.
pub proof fn lemma_digit_roundtrip(d: int)
    requires
        0 <= d <= 9,
    ensures
        digit_val(digit_char(d)) == d,
        is_digit_char(digit_char(d)),
{
}

/// The exec mirror of `digit_char`.
pub fn digit_str(d: u32) -> (r: &'static str)
    requires
        d < 10,
    ensures
        r@ == seq![digit_char(d as int)],
{
    if d == 0 {
        proof {
            reveal_strlit("0");
            assert("0"@ =~= seq![digit_char(0)]);
        }
        "0"
    } else if d == 1 {
        proof {
            reveal_strlit("1");
            assert("1"@ =~= seq![digit_char(1)]);
        }
        "1"
    } else if d == 2 {
        proof {
            reveal_strlit("2");
            assert("2"@ =~= seq![digit_char(2)]);
        }
        "2"
    } else if d == 3 {
        proof {
            reveal_strlit("3");
            assert("3"@ =~= seq![digit_char(3)]);
        }
        "3"
    } else if d == 4 {
        proof {
            reveal_strlit("4");
            assert("4"@ =~= seq![digit_char(4)]);
        }
        "4"
    } else if d == 5 {
        proof {
            reveal_strlit("5");
            assert("5"@ =~= seq![digit_char(5)]);
        }
        "5"
    } else if d == 6 {
        proof {
            reveal_strlit("6");
            assert("6"@ =~= seq![digit_char(6)]);
        }
        "6"
    } else if d == 7 {
        proof {
            reveal_strlit("7");
            assert("7"@ =~= seq![digit_char(7)]);
        }
        "7"
    } else if d == 8 {
        proof {
            reveal_strlit("8");
            assert("8"@ =~= seq![digit_char(8)]);
        }
        "8"
    } else {
        proof {
            reveal_strlit("9");
            assert("9"@ =~= seq![digit_char(d as int)]);
        }
        "9"
    }
}

/// The exec mirror of `digit_val`.
pub fn digit_value(c: char) -> (d: u32)
    ensures
        d as int == digit_val(c),
{
    if c == '0' {
        0
    } else if c == '1' {
        1
    } else if c == '2' {
        2
    } else if c == '3' {
        3
    } else if c == '4' {
        4
    } else if c == '5' {
        5
    } else if c == '6' {
        6
    } else if c == '7' {
        7
    } else if c == '8' {
        8
    } else if c == '9' {
        9
    } else {
        10
    }
}

/// Writes `n` in decimal.
pub fn u32_string(n: u32) -> (r: String)
    ensures
        r@ == dec_chars(n as int),
    decreases n,
{
    if n <= 9 {
        let r = String::from_str(digit_str(n));
        proof {
            assert(r@ =~= dec_chars(n as int));
        }
        r
    } else {
        let mut r = u32_string(n / 10);
        r.append(digit_str(n % 10));
        proof {
            assert(r@ =~= dec_chars(n as int));
        }
        r
    }
}

/// Writes `n` in decimal, with a minus sign when it is negative.
pub fn i32_string(n: i32) -> (r: String)
    ensures
        r@ == int_chars(n as int),
{
    if n >= 0 {
        let r = u32_string(n as u32);
        r
    } else {
        let m: u32 = (-(n as i64)) as u32;
        let mut r = String::from_str("-");
        r.append(u32_string(m).as_str());
        proof {
            reveal_strlit("-");
            assert(r@ =~= int_chars(n as int));
        }
        r
    }
}

/// Reads a canonical decimal token as a `u32`; `None` on any other text and
/// on values above `u32::MAX`.
pub open spec fn spec_parse_u32(s: Seq<char>) -> Option<u32> {
    if canonical_digits(s) && digits_val(s) <= u32::MAX {
        Some(digits_val(s) as u32)
    } else {
        None
    }
}

/// Reads a decimal token with an optional minus sign as an `i32`; `None` on
/// any other text and on values outside the `i32` range.
pub open spec fn spec_parse_i32(s: Seq<char>) -> Option<i32> {
    if s.len() >= 1 && s[0] == '-' {
        let m = s.skip(1);
        if canonical_digits(m) && digits_val(m) <= 0x80000000 {
            Some((-digits_val(m)) as i32)
        } else {
            None
        }
    } else {
        if canonical_digits(s) && digits_val(s) <= i32::MAX {
            Some(digits_val(s) as i32)
        } else {
            None
        }
    }
}

/// The decimal writing of `n >= 0` is a canonical token worth `n`.
pub proof fn lemma_dec_chars(n: int)
    requires
        n >= 0,
    ensures
        canonical_digits(dec_chars(n)),
        digits_val(dec_chars(n)) == n,
        n >= 1 ==> dec_chars(n)[0] != '0',
    decreases n,
{
    if n <= 9 {
        lemma_digit_roundtrip(n);
        let s = dec_chars(n);
        assert(s == seq![digit_char(n)]);
        assert(s.drop_last() =~= Seq::<char>::empty());
        assert(digits_val(s.drop_last()) == 0);
        assert(s.last() == digit_char(n));
        if n >= 1 {
            assert(s[0] != '0') by {
                assert(digit_val(s[0]) == n && n != 0 && digit_val('0') == 0);
            }
        }
    } else {
        lemma_dec_chars(n / 10);
        lemma_digit_roundtrip(n % 10);
        let s = dec_chars(n);
        let h = dec_chars(n / 10);
        assert(s == h.push(digit_char(n % 10)));
        assert(s.drop_last() =~= h);
        assert(s.last() == digit_char(n % 10));
        assert(digits_val(s) == digits_val(h) * 10 + digit_val(digit_char(n % 10)));
        assert(digits_val(s) == (n / 10) * 10 + n % 10);
        assert(all_digits(s)) by {
            assert(forall|i: int|
                0 <= i < s.len() ==> s[i] == (if i < h.len() {
                    h[i]
                } else {
                    digit_char(n % 10)
                }));
        }
        assert(s[0] == h[0]);
    }
}

/// Writing a `u32` in decimal and reading the token back yields the value.
pub proof fn lemma_parse_dec_u32(n: u32)
    ensures
        spec_parse_u32(dec_chars(n as int)) == Some(n),
{
    lemma_dec_chars(n as int);
}

/// Writing an `i32` in decimal and reading the token back yields the value.
pub proof fn lemma_parse_int_i32(n: i32)
    ensures
        spec_parse_i32(int_chars(n as int)) == Some(n),
{
    if n >= 0 {
        lemma_dec_chars(n as int);
        let s = int_chars(n as int);
        assert(s == dec_chars(n as int));
        assert(s[0] != '-') by {
            assert(is_digit_char(s[0]));
            assert(digit_val('-') == 10);
        }
    } else {
        lemma_dec_chars(-(n as int));
        let s = int_chars(n as int);
        assert(s == seq!['-'] + dec_chars(-(n as int)));
        assert(s[0] == '-');
        assert(s.skip(1) =~= dec_chars(-(n as int)));
    }
}

pub fn parse_u32_str(s: &str) -> (r: Option<u32>)
    ensures
        r == spec_parse_u32(s@),
{
    let n = s.unicode_len();
    if n == 0 {
        return None;
    }
    if n > 10 {
        proof {
            if canonical_digits(s@) {
                lemma_canonical_min(s@);
                lemma_pow10_mono(10, s@.len() - 1);
                lemma_pow10_values();
            }
        }
        return None;
    }
    let mut acc: u64 = 0;
    let mut i: usize = 0;
    while i < n
        invariant
            0 < n <= 10,
            n == s@.len(),
            0 <= i <= n,
            all_digits(s@.take(i as int)),
            i > 0 && n > 1 ==> s@[0] != '0',
            acc == digits_val(s@.take(i as int)),
            acc < pow10(i as int),
        decreases n - i,
    {
        let c = s.get_char(i);
        let d = digit_value(c);
        if d >= 10 {
            proof {
                assert(!is_digit_char(s@[i as int]));
                assert(!all_digits(s@));
            }
            return None;
        }
        if i == 0 && n > 1 && c == '0' {
            proof {
                assert(!canonical_digits(s@));
            }
            return None;
        }
        proof {
            assert(s@.take(i + 1).drop_last() =~= s@.take(i as int));
            assert(s@.take(i + 1).last() == s@[i as int]);
            lemma_pow10_mono(i as int, 9);
            lemma_pow10_values();
            assert(acc * 10 + d < pow10(i + 1));
        }
        acc = acc * 10 + (d as u64);
        i = i + 1;
        proof {
            assert(all_digits(s@.take(i as int))) by {
                assert(forall|k: int|
                    0 <= k < i ==> s@.take(i as int)[k] == s@.take(i as int)[k] && s@.take(
                        i as int,
                    )[k] == s@[k]);
                assert(forall|k: int| 0 <= k < i - 1 ==> s@.take(i - 1)[k] == s@[k]);
            }
        }
    }
    proof {
        assert(s@.take(n as int) =~= s@);
    }
    if acc <= 0xFFFF_FFFF {
        Some(acc as u32)
    } else {
        None
    }
}

pub fn parse_i32_str(s: &str) -> (r: Option<i32>)
    ensures
        r == spec_parse_i32(s@),
{
    let n = s.unicode_len();
    if n >= 1 && s.get_char(0) == '-' {
        let rest = s.substring_char(1, n);
        proof {
            assert(rest@ =~= s@.skip(1));
        }
        let r = match parse_u32_str(rest) {
            None => None,
            Some(m) => {
                if m <= 0x8000_0000 {
                    Some((-(m as i64)) as i32)
                } else {
                    None
                }
            },
        };
        proof {
            assert(rest@ == s@.skip(1));
            if canonical_digits(rest@) {
                lemma_digits_val_bounds(rest@);
            }
            assert(r == spec_parse_i32(s@));
        }
        r
    } else {
        let r = match parse_u32_str(s) {
            None => None,
            Some(m) => {
                if m <= 0x7FFF_FFFF {
                    Some(m as i32)
                } else {
                    None
                }
            },
        };
        proof {
            if canonical_digits(s@) {
                lemma_digits_val_bounds(s@);
            }
            assert(r == spec_parse_i32(s@));
        }
        r
    }
}

} // verus!
