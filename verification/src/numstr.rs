//! Decimal rendering and parsing of integers, with exact specifications.

use vstd::prelude::*;

verus! {

/// The decimal digit character for a value in `0..10`.
pub open spec fn digit_char(d: int) -> char {
    if d == 0 {
        '0'
    } else if d == 1 {
        '1'
    } else if d == 2 {
        '2'
    } else if d == 3 {
        '3'
    } else if d == 4 {
        '4'
    } else if d == 5 {
        '5'
    } else if d == 6 {
        '6'
    } else if d == 7 {
        '7'
    } else if d == 8 {
        '8'
    } else {
        '9'
    }
}

/// Decimal rendering of a natural number, most significant digit first.
pub open spec fn nat_to_chars(n: nat) -> Seq<char>
    decreases n,
{
    if n < 10 {
        seq![digit_char(n as int)]
    } else {
        nat_to_chars(n / 10) + seq![digit_char((n % 10) as int)]
    }
}

/// Decimal rendering of an integer, with a leading `-` when negative.
pub open spec fn int_to_chars(n: int) -> Seq<char> {
    if n < 0 {
        seq!['-'] + nat_to_chars((-n) as nat)
    } else {
        nat_to_chars(n as nat)
    }
}

/// The one-character string for a decimal digit value.
fn digit_str(d: u64) -> (r: &'static str)
    requires
        d < 10,
    ensures
        r@ == seq![digit_char(d as int)],
{
    let r: &'static str = if d == 0 {
        "0"
    } else if d == 1 {
        "1"
    } else if d == 2 {
        "2"
    } else if d == 3 {
        "3"
    } else if d == 4 {
        "4"
    } else if d == 5 {
        "5"
    } else if d == 6 {
        "6"
    } else if d == 7 {
        "7"
    } else if d == 8 {
        "8"
    } else {
        "9"
    };
    proof {
        reveal_strlit("0");
        reveal_strlit("1");
        reveal_strlit("2");
        reveal_strlit("3");
        reveal_strlit("4");
        reveal_strlit("5");
        reveal_strlit("6");
        reveal_strlit("7");
        reveal_strlit("8");
        reveal_strlit("9");
        assert(r@ =~= seq![digit_char(d as int)]);
    }
    r
}

/// Renders a natural number in decimal.
pub fn u64_to_string(n: u64) -> (r: String)
    ensures
        r@ == nat_to_chars(n as nat),
    decreases n,
{
    if n < 10 {
        String::from_str(digit_str(n))
    } else {
        proof {
            assert(n / 10 < n) by (nonlinear_arith)
                requires
                    n >= 10,
            ;
        }
        let mut r = u64_to_string(n / 10);
        r.append(digit_str(n % 10));
        r
    }
}

/// Renders a signed integer in decimal.
pub fn i64_to_string(n: i64) -> (r: String)
    ensures
        r@ == int_to_chars(n as int),
{
    if n >= 0 {
        u64_to_string(n as u64)
    } else {
        let mag: u64 = if n == i64::MIN {
            9223372036854775808u64
        } else {
            (-n) as u64
        };
        let mut r = String::from_str("-");
        r.append(u64_to_string(mag).as_str());
        proof {
            reveal_strlit("-");
            assert(r@ =~= seq!['-'] + nat_to_chars((-(n as int)) as nat));
        }
        r
    }
}

/// Renders a signed 32-bit integer in decimal.
pub fn i32_to_string(n: i32) -> (r: String)
    ensures
        r@ == int_to_chars(n as int),
{
    i64_to_string(n as i64)
}

/// Whether a character is a decimal digit.
pub open spec fn is_digit_char(c: char) -> bool {
    '0' <= c && c <= '9'
}

/// Value of a decimal digit character.
pub open spec fn digit_val(c: char) -> int {
    c as int - '0' as int
}

/// Value of a digit string, most significant digit first.
pub open spec fn digits_val(t: Seq<char>) -> int
    decreases t.len(),
{
    if t.len() == 0 {
        0
    } else {
        digits_val(t.drop_last()) * 10 + digit_val(t.last())
    }
}

/// The digit portion of an integer token: the token minus a leading sign.
pub open spec fn token_digits(t: Seq<char>) -> Seq<char> {
    if t.len() > 0 && (t[0] == '-' || t[0] == '+') {
        t.skip(1)
    } else {
        t
    }
}

/// Whether the token carries a leading minus sign.
pub open spec fn token_is_neg(t: Seq<char>) -> bool {
    t.len() > 0 && t[0] == '-'
}

/// An integer numeral: an optional sign followed by one or more digits.
pub open spec fn valid_int_chars(t: Seq<char>) -> bool {
    &&& token_digits(t).len() > 0
    &&& forall|i: int| 0 <= i < token_digits(t).len() ==> is_digit_char(#[trigger] token_digits(t)[i])
}

/// The integer value of a numeral.
pub open spec fn token_int_val(t: Seq<char>) -> int {
    if token_is_neg(t) {
        -digits_val(token_digits(t))
    } else {
        digits_val(token_digits(t))
    }
}

/// Decimal rendering of a natural number yields only digits and reads back
/// to the same value.
pub proof fn lemma_nat_to_chars_digits(n: nat)
    ensures
        nat_to_chars(n).len() >= 1,
        forall|i: int| 0 <= i < nat_to_chars(n).len() ==> is_digit_char(#[trigger] nat_to_chars(n)[i]),
        digits_val(nat_to_chars(n)) == n,
    decreases n,
{
    if n < 10 {
        let t = nat_to_chars(n);
        assert(t == seq![digit_char(n as int)]);
        assert(t.drop_last() =~= Seq::<char>::empty());
        assert(digits_val(t) == digits_val(t.drop_last()) * 10 + digit_val(t.last()));
        assert(digit_val(digit_char(n as int)) == n);
    } else {
        lemma_nat_to_chars_digits(n / 10);
        let t = nat_to_chars(n);
        let p = nat_to_chars(n / 10);
        assert(t == p + seq![digit_char((n % 10) as int)]);
        assert(t.drop_last() =~= p);
        assert(t.last() == digit_char((n % 10) as int));
        assert(digit_val(digit_char((n % 10) as int)) == n % 10);
        assert(digits_val(t) == digits_val(p) * 10 + digit_val(t.last()));
    }
}

/// Decimal rendering of an integer is a numeral that reads back to the same
/// value, and never begins with the letter of a keyword.
pub proof fn lemma_int_to_chars_numeral(v: int)
    ensures
        valid_int_chars(int_to_chars(v)),
        token_int_val(int_to_chars(v)) == v,
        int_to_chars(v).len() >= 1,
        int_to_chars(v)[0] == '-' || is_digit_char(int_to_chars(v)[0]),
{
    if v < 0 {
        lemma_nat_to_chars_digits((-v) as nat);
        let t = int_to_chars(v);
        let d = nat_to_chars((-v) as nat);
        assert(t == seq!['-'] + d);
        assert(t.skip(1) =~= d);
        assert(token_digits(t) == d);
        assert(token_is_neg(t));
    } else {
        lemma_nat_to_chars_digits(v as nat);
        let t = int_to_chars(v);
        assert(is_digit_char(t[0]));
        assert(t[0] != '-' && t[0] != '+');
        assert(token_digits(t) == t);
        assert(!token_is_neg(t));
    }
}

proof fn lemma_digits_val_nonneg(t: Seq<char>)
    requires
        forall|i: int| 0 <= i < t.len() ==> is_digit_char(#[trigger] t[i]),
    ensures
        digits_val(t) >= 0,
    decreases t.len(),
{
    if t.len() > 0 {
        lemma_digits_val_nonneg(t.drop_last());
    }
}

/// Parses the characters `s[start..end]` as a signed 64-bit integer, exactly
/// when they form a numeral whose value fits.
pub fn parse_i64_span(s: &str, start: usize, end: usize) -> (r: Option<i64>)
    requires
        start <= end <= s@.len(),
    ensures
        ({
            let t = s@.subrange(start as int, end as int);
            match r {
                Some(v) => valid_int_chars(t) && token_int_val(t) == v as int,
                None => !(valid_int_chars(t) && i64::MIN <= token_int_val(t) <= i64::MAX),
            }
        }),
{
    let ghost t = s@.subrange(start as int, end as int);
    let mut i: usize = start;
    let mut neg: bool = false;
    if i < end {
        let c = s.get_char(i);
        if c == '-' {
            neg = true;
            i = i + 1;
        } else if c == '+' {
            i = i + 1;
        }
    }
    let ghost dstart = i as int;
    let ghost digits = t.skip(dstart - start);
    proof {
        assert(digits =~= token_digits(t));
        assert(neg == token_is_neg(t));
    }
    if i == end {
        // no digits at all
        return None;
    }
    let mut acc: u64 = 0;
    let mut overflow: bool = false;
    let big: u64 = 9223372036854775808u64;  // 2^63, the magnitude of i64::MIN
    while i < end
        invariant
            dstart <= i <= end <= s@.len(),
            start <= dstart,
            t == s@.subrange(start as int, end as int),
            digits == t.skip(dstart - start),
            digits == token_digits(t),
            neg == token_is_neg(t),
            forall|k: int| 0 <= k < i - dstart ==> is_digit_char(#[trigger] digits[k]),
            !overflow ==> acc == digits_val(digits.take(i - dstart)),
            overflow ==> digits_val(digits.take(i - dstart)) > 9223372036854775808int,
        decreases end - i,
    {
        let c = s.get_char(i);
        proof {
            assert(digits[i - dstart] == s@[i as int]);
        }
        if !(c >= '0' && c <= '9') {
            proof {
                assert(!is_digit_char(token_digits(t)[i - dstart]));
            }
            return None;
        }
        let d: u64 = ((c as u32) - 48) as u64;
        proof {
            assert(digits.take(i + 1 - dstart).drop_last() =~= digits.take(i - dstart));
            assert(digits.take(i + 1 - dstart).last() == digits[i - dstart]);
        }
        if overflow {
            proof {
                lemma_digits_val_nonneg(digits.take(i - dstart));
                assert(digits_val(digits.take(i - dstart)) * 10 >= digits_val(
                    digits.take(i - dstart),
                )) by (nonlinear_arith)
                    requires
                        digits_val(digits.take(i - dstart)) >= 0,
                ;
            }
        } else if acc > (u64::MAX - 9) / 10 {
            overflow = true;
            proof {
                assert(acc * 10 + d > 9223372036854775808int) by (nonlinear_arith)
                    requires
                        acc > (u64::MAX - 9) / 10,
                        d >= 0,
                ;
            }
        } else {
            proof {
                assert(acc * 10 + d <= u64::MAX) by (nonlinear_arith)
                    requires
                        acc <= (u64::MAX - 9) / 10,
                        d <= 9,
                ;
            }
            acc = acc * 10 + d;
        }
        i = i + 1;
    }
    proof {
        assert(digits.take(end - dstart) =~= digits);
        lemma_digits_val_nonneg(digits);
    }
    if overflow {
        return None;
    }
    if neg {
        if acc > big {
            None
        } else if acc == big {
            Some(i64::MIN)
        } else {
            Some(-(acc as i64))
        }
    } else {
        if acc >= big {
            None
        } else {
            Some(acc as i64)
        }
    }
}

/// Parses the characters `s[start..end]` as a signed 32-bit integer, exactly
/// when they form a numeral whose value fits.
pub fn parse_i32_span(s: &str, start: usize, end: usize) -> (r: Option<i32>)
    requires
        start <= end <= s@.len(),
    ensures
        ({
            let t = s@.subrange(start as int, end as int);
            match r {
                Some(v) => valid_int_chars(t) && token_int_val(t) == v as int,
                None => !(valid_int_chars(t) && i32::MIN <= token_int_val(t) <= i32::MAX),
            }
        }),
{
    match parse_i64_span(s, start, end) {
        Some(v) => {
            if v >= -2147483648i64 && v <= 2147483647i64 {
                Some(v as i32)
            } else {
                None
            }
        },
        None => None,
    }
}

} // verus!
