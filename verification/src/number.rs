//! Decimal integers in text: writing them as `to_string` does and reading
//! them back as `str::parse::<i64>` does.
use vstd::prelude::*;
use crate::text::{push_char, chars_of};

verus! {

/// Whether `c` is one of the ASCII decimal digits.
pub open spec fn is_digit(c: char) -> bool {
    '0' <= c && c <= '9'
}

/// The value of the decimal digit `c`.
pub open spec fn digit_of(c: char) -> int {
    c as int - '0' as int
}

/// The decimal digit with value `d`, for `0 <= d < 10`.
pub open spec fn digit_char(d: int) -> char {
    (d + '0' as int) as char
}

/// The decimal digits of `n`, most significant first, without leading zeros.
pub open spec fn digits(n: nat) -> Seq<char>
    decreases n,
{
    if n < 10 {
        seq![digit_char(n as int)]
    } else {
        digits(n / 10).push(digit_char((n % 10) as int))
    }
}

/// `n` written in decimal, with a leading `-` when negative.
pub open spec fn decimal(n: int) -> Seq<char> {
    if n < 0 {
        seq!['-'] + digits((-n) as nat)
    } else {
        digits(n as nat)
    }
}

/// `s` is a non-empty run of decimal digits.
pub open spec fn is_digits(s: Seq<char>) -> bool {
    s.len() > 0 && forall|i: int| 0 <= i < s.len() ==> is_digit(#[trigger] s[i])
}

/// The value of a run of decimal digits.
pub open spec fn digits_value(s: Seq<char>) -> int
    decreases s.len(),
{
    if s.len() == 0 {
        0
    } else {
        digits_value(s.drop_last()) * 10 + digit_of(s.last())
    }
}

/// The integer that `s` denotes: an optional `+` or `-` followed by one or
/// more decimal digits, and nothing else.
pub open spec fn int_value(s: Seq<char>) -> Option<int> {
    if s.len() > 0 && (s[0] == '-' || s[0] == '+') {
        if is_digits(s.drop_first()) {
            if s[0] == '-' {
                Some(-digits_value(s.drop_first()))
            } else {
                Some(digits_value(s.drop_first()))
            }
        } else {
            None
        }
    } else if is_digits(s) {
        Some(digits_value(s))
    } else {
        None
    }
}

/// What `s.parse::<i64>()` gives: the value of `s` when `s` denotes an
/// integer that fits in an `i64`, and nothing otherwise.
pub open spec fn parsed_i64(s: Seq<char>) -> Option<i64> {
    match int_value(s) {
        Some(v) => if i64::MIN <= v <= i64::MAX {
            Some(v as i64)
        } else {
            None
        },
        None => None,
    }
}

proof fn lemma_digits_value_nonneg(s: Seq<char>)
    requires
        forall|i: int| 0 <= i < s.len() ==> is_digit(#[trigger] s[i]),
    ensures
        digits_value(s) >= 0,
    decreases s.len(),
{
    if s.len() > 0 {
        lemma_digits_value_nonneg(s.drop_last());
        assert(is_digit(s[s.len() - 1]));
    }
}

/// A longer run of digits is worth at least as much as its prefix.
proof fn lemma_digits_value_prefix(s: Seq<char>, k: int)
    requires
        0 <= k <= s.len(),
        forall|i: int| 0 <= i < s.len() ==> is_digit(#[trigger] s[i]),
    ensures
        digits_value(s.take(k)) <= digits_value(s),
    decreases s.len(),
{
    if k < s.len() {
        let t = s.drop_last();
        assert(t.take(k) == s.take(k));
        lemma_digits_value_prefix(t, k);
        lemma_digits_value_nonneg(t);
        assert(is_digit(s[s.len() - 1]));
    } else {
        assert(s.take(k) == s);
    }
}

/// The digits of `n` are a run of decimal digits worth `n`.
pub proof fn lemma_digits(n: nat)
    ensures
        is_digits(digits(n)),
        digits_value(digits(n)) == n,
    decreases n,
{
    assert forall|k: int| 0 <= k < 10 implies digit_of(#[trigger] digit_char(k)) == k
        && is_digit(digit_char(k)) by {}
    if n < 10 {
        let d = digits(n);
        assert(d.drop_last() =~= Seq::<char>::empty());
        assert(digits_value(d) == digits_value(d.drop_last()) * 10 + digit_of(d.last()));
        assert(digit_of(digit_char(n as int)) == n);
    } else {
        lemma_digits(n / 10);
        let d = digits(n);
        assert(d.last() == digit_char((n % 10) as int));
        assert(digits_value(d) == digits_value(d.drop_last()) * 10 + digit_of(d.last()));
        assert((n / 10) * 10 + n % 10 == n);
        assert(digit_of(digit_char((n % 10) as int)) == n % 10);
        assert(d.drop_last() == digits(n / 10));
        assert forall|i: int| 0 <= i < d.len() implies is_digit(#[trigger] d[i]) by {
            if i < d.len() - 1 {
                assert(d[i] == digits(n / 10)[i]);
            }
        }
    }
}

/// The decimal digit with value `d`, for `d < 10`.
fn digit(d: u64) -> (c: char)
    requires
        d < 10,
    ensures
        c == digit_char(d as int),
{
    let b: u8 = d as u8;
    (b + 48) as char
}

/// Appends the decimal digits of `n` to `out`.
fn push_digits(out: &mut String, n: u64)
    ensures
        final(out)@ == old(out)@ + digits(n as nat),
    decreases n,
{
    if n >= 10 {
        push_digits(out, n / 10);
    }
    let c = digit(n % 10);
    push_char(out, c);
    assert(n < 10 ==> n % 10 == n);
}

/// `n` written in decimal, as `n.to_string()` writes it.
pub fn decimal_string(n: i64) -> (r: String)
    ensures
        r@ == decimal(n as int),
{
    let mut r = String::new();
    if n < 0 {
        push_char(&mut r, '-');
        let m: u64 = if n == i64::MIN {
            9223372036854775808u64
        } else {
            (-n) as u64
        };
        push_digits(&mut r, m);
    } else {
        push_digits(&mut r, n as u64);
    }
    r
}

/// The value of the decimal digits `c[start..]`, when they are a non-empty
/// run of digits whose value fits in a `u64`.
fn read_digits(c: &Vec<char>, start: usize) -> (r: Option<u64>)
    requires
        start < c.len(),
    ensures
        match r {
            Some(v) => is_digits(c@.skip(start as int)) && v == digits_value(c@.skip(start as int)),
            None => !is_digits(c@.skip(start as int)) || digits_value(c@.skip(start as int))
                > u64::MAX,
        },
{
    let ghost body = c@.skip(start as int);
    let mut acc: u64 = 0;
    let mut i: usize = start;
    while i < c.len()
        invariant
            start <= i <= c.len(),
            body == c@.skip(start as int),
            forall|j: int| 0 <= j < i - start ==> is_digit(#[trigger] body[j]),
            acc == digits_value(body.take(i - start)),
        decreases c.len() - i,
    {
        let ch = c[i];
        let ghost k = i - start;
        proof {
            let t = body.take(k + 1);
            assert(t.drop_last() == body.take(k));
            assert(t.last() == ch);
            assert(digits_value(t) == digits_value(body.take(k)) * 10 + digit_of(ch));
        }
        if !('0' <= ch && ch <= '9') {
            assert(!is_digit(body[k]));
            return None;
        }
        let d: u64 = (ch as u32 - 48) as u64;
        match acc.checked_mul(10) {
            None => {
                proof {
                    lemma_too_large(body, k + 1);
                }
                return None;
            },
            Some(m) => {
                match m.checked_add(d) {
                    None => {
                        proof {
                            lemma_too_large(body, k + 1);
                        }
                        return None;
                    },
                    Some(a) => {
                        acc = a;
                    },
                }
            },
        }
        i = i + 1;
    }
    assert(body.take(c.len() - start) == body);
    Some(acc)
}

/// Reads an `i64` from `s` as `s.parse::<i64>()` does.
pub fn parse_i64(s: &str) -> (r: Option<i64>)
    ensures
        r == parsed_i64(s@),
{
    let c = chars_of(s);
    if c.len() == 0 {
        return None;
    }
    let signed = c[0] == '-' || c[0] == '+';
    let start: usize = if signed { 1 } else { 0 };
    assert(signed ==> c@.skip(1) == s@.drop_first());
    assert(c@.skip(0) == s@);
    if start == c.len() {
        return None;
    }
    match read_digits(&c, start) {
        None => None,
        Some(acc) => {
            if c[0] == '-' {
                if acc < 9223372036854775808u64 {
                    Some(-(acc as i64))
                } else if acc == 9223372036854775808u64 {
                    Some(i64::MIN)
                } else {
                    None
                }
            } else if acc <= 9223372036854775807u64 {
                Some(acc as i64)
            } else {
                None
            }
        },
    }
}

/// A run of digits whose prefix is already too large for a `u64` is too
/// large as a whole, or is not a run of digits.
proof fn lemma_too_large(body: Seq<char>, k: int)
    requires
        0 < k <= body.len(),
        digits_value(body.take(k)) > u64::MAX,
    ensures
        !is_digits(body) || digits_value(body) > u64::MAX,
{
    if is_digits(body) {
        lemma_digits_value_prefix(body, k);
    }
}

/// Reading back what was written gives the number written:
/// `decimal_string(n).parse::<i64>()` is `Some(n)` for every `i64`.
pub proof fn law_parse_decimal(n: i64)
    ensures
        parsed_i64(decimal(n as int)) == Some(n),
{
    if n < 0 {
        let m = (-n) as nat;
        lemma_digits(m);
        let d = decimal(n as int);
        assert(d.drop_first() == digits(m));
        assert(d[0] == '-');
    } else {
        lemma_digits(n as nat);
        let d = digits(n as nat);
        assert(is_digit(d[0]));
    }
}

/// A decimal numeral never holds `sep` unless `sep` is a digit or `-`.
pub proof fn lemma_decimal_avoids(n: int, sep: char)
    requires
        !is_digit(sep),
        sep != '-',
    ensures
        !decimal(n).contains(sep),
{
    if n < 0 {
        lemma_digits((-n) as nat);
        let d = decimal(n);
        assert forall|i: int| 0 <= i < d.len() implies d[i] != sep by {
            if i > 0 {
                assert(d[i] == digits((-n) as nat)[i - 1]);
            }
        }
    } else {
        lemma_digits(n as nat);
    }
}

/// How a number is written: a single digit for 0 to 9, the digits of
/// `n / 10` followed by the digit of `n % 10` for larger numbers (ASCII
/// digits, `'0'` being code 48), and a `-` before the digits of `-n` for
/// negative numbers.
pub proof fn law_decimal_shape(n: int)
    ensures
        0 <= n < 10 ==> decimal(n) == seq![(n + 48) as char],
        n >= 10 ==> decimal(n) == decimal(n / 10).push(((n % 10) + 48) as char),
        n < 0 ==> decimal(n) == seq!['-'] + decimal(-n),
{
    assert('0' as int == 48);
}

/// What is not a numeral reads as nothing: the empty text, a sign alone,
/// a text starting with neither a sign nor a digit, or one with a non-digit
/// after its first character.
pub proof fn law_parse_shape(s: Seq<char>)
    ensures
        s.len() == 0 ==> parsed_i64(s) is None,
        (s.len() == 1 && (s[0] == '-' || s[0] == '+')) ==> parsed_i64(s) is None,
        (exists|i: int| 1 <= i < s.len() && !('0' <= #[trigger] s[i] && s[i] <= '9')) ==> parsed_i64(s) is None,
        (s.len() > 0 && !('0' <= s[0] && s[0] <= '9') && s[0] != '-' && s[0] != '+') ==> parsed_i64(s) is None,
{
    assert('0' as int == 48);
    if exists|i: int| 1 <= i < s.len() && !('0' <= #[trigger] s[i] && s[i] <= '9') {
        let i = choose|i: int| 1 <= i < s.len() && !('0' <= #[trigger] s[i] && s[i] <= '9');
        assert(!is_digit(s[i]));
        assert(s.drop_first()[i - 1] == s[i]);
    }
}

} // verus!
