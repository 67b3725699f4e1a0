//! Decimal notation: writing integers as text and reading them back.

use vstd::prelude::*;

verus! {

/// The character that stands for the digit `d`.
pub open spec fn digit_char(d: int) -> char {
    ((48 + d) as u8) as char
}

/// Whether `c` is one of the ten decimal digits.
pub open spec fn is_digit(c: char) -> bool {
    48 <= c as u32 <= 57
}

/// The number that the decimal digit `c` stands for.
pub open spec fn digit_value(c: char) -> nat {
    if is_digit(c) {
        (c as u32 - 48) as nat
    } else {
        0
    }
}

/// The decimal notation of `n`, without sign or leading zeros.
pub open spec fn decimal(n: nat) -> Seq<char>
    decreases n,
{
    if n < 10 {
        seq![digit_char(n as int)]
    } else {
        decimal(n / 10).push(digit_char((n % 10) as int))
    }
}

/// The decimal notation of `n`, with a minus sign in front of a negative
/// number.
pub open spec fn signed_decimal(n: int) -> Seq<char> {
    if n < 0 {
        seq!['-'] + decimal((-n) as nat)
    } else {
        decimal(n as nat)
    }
}

/// The number that a sequence of decimal digits stands for.
pub open spec fn digits_value(s: Seq<char>) -> nat
    decreases s.len(),
{
    if s.len() == 0 {
        0
    } else {
        (digits_value(s.drop_last()) * 10 + digit_value(s.last())) as nat
    }
}

/// Whether every character of `s` is a decimal digit.
pub open spec fn all_digits(s: Seq<char>) -> bool {
    forall|i: int| 0 <= i < s.len() ==> is_digit(#[trigger] s[i])
}

/// Whether `s` begins with a minus sign.
pub open spec fn has_minus(s: Seq<char>) -> bool {
    s.len() > 0 && s[0] == '-'
}

/// The length of the sign in front of `s`: one if `s` begins with `+` or `-`.
pub open spec fn sign_len(s: Seq<char>) -> int {
    if s.len() > 0 && (s[0] == '-' || s[0] == '+') {
        1
    } else {
        0
    }
}

/// The integer that `s` denotes, if `s` is an optional sign (`+` or `-`)
/// followed by at least one decimal digit and nothing else, and the number
/// lies between `min` and `max`.
pub open spec fn parse_int(s: Seq<char>, min: int, max: int) -> Option<int> {
    let body = s.skip(sign_len(s));
    let value = if has_minus(s) {
        -(digits_value(body) as int)
    } else {
        digits_value(body) as int
    };
    if body.len() > 0 && all_digits(body) && min <= value <= max {
        Some(value)
    } else {
        None
    }
}

/// The unsigned integer that `s` denotes: as `parse_int`, but a minus sign
/// is not accepted, not even before zero.
pub open spec fn parse_unsigned(s: Seq<char>, max: int) -> Option<int> {
    if has_minus(s) {
        None
    } else {
        parse_int(s, 0, max)
    }
}

/// The value of a prefix of a digit sequence is at most the value of the
/// whole sequence.
proof fn lemma_digits_value_grows(s: Seq<char>, k: int)
    requires
        0 <= k <= s.len(),
        all_digits(s),
    ensures
        digits_value(s.take(k)) <= digits_value(s),
    decreases s.len() - k,
{
    if k == s.len() {
        assert(s.take(k) =~= s);
    } else {
        let t = s.drop_last();
        assert(is_digit(s.last()));
        assert forall|i: int| 0 <= i < t.len() implies is_digit(#[trigger] t[i]) by {
            assert(t[i] == s[i]);
        }
        lemma_digits_value_grows(t, k);
        assert(t.take(k) =~= s.take(k));
    }
}

/// Reading one more digit multiplies the value by ten and adds the digit.
proof fn lemma_digits_value_step(s: Seq<char>, k: int)
    requires
        0 <= k < s.len(),
    ensures
        digits_value(s.take(k + 1)) == digits_value(s.take(k)) * 10 + digit_value(s[k]),
{
    let t = s.take(k + 1);
    assert(t.drop_last() =~= s.take(k));
    assert(t.last() == s[k]);
}

/// The decimal notation of `n`.
pub fn format_u64(n: u64) -> (out: String)
    ensures
        out@ == decimal(n as nat),
{
    let mut digits: Vec<u8> = Vec::new();
    let mut m: u64 = n;
    proof {
        assert(decimal(n as nat) + tail_text(digits@) =~= decimal(n as nat));
    }
    while m >= 10
        invariant
            decimal(n as nat) == decimal(m as nat) + tail_text(digits@),
            forall|i: int| 0 <= i < digits.len() ==> #[trigger] digits@[i] < 10,
        decreases m,
    {
        let d: u8 = (m % 10) as u8;
        let ghost before = digits@;
        digits.push(d);
        proof {
            assert(digits@.drop_last() =~= before);
            assert(decimal(m as nat) == decimal((m / 10) as nat).push(digit_char(d as int)));
            assert(decimal((m / 10) as nat).push(digit_char(d as int)) + tail_text(before)
                =~= decimal((m / 10) as nat) + tail_text(digits@));
        }
        m = m / 10;
    }
    let mut out = String::new();
    out.append(digit_str(m as u8));
    let ghost head = out@;
    let mut i: usize = digits.len();
    proof {
        assert(digits@.take(i as int) =~= digits@);
    }
    while i > 0
        invariant
            i <= digits.len(),
            head == decimal(m as nat),
            forall|k: int| 0 <= k < digits.len() ==> #[trigger] digits@[k] < 10,
            head + tail_text(digits@) == out@ + tail_text(digits@.take(i as int)),
        decreases i,
    {
        i -= 1;
        let ghost prev = out@;
        out.append(digit_str(digits[i]));
        proof {
            let t = digits@.take(i + 1);
            assert(t.drop_last() =~= digits@.take(i as int));
            assert(t.last() == digits@[i as int]);
            assert(prev + tail_text(t) =~= out@ + tail_text(digits@.take(i as int)));
        }
    }
    proof {
        assert(digits@.take(0) =~= Seq::<u8>::empty());
        assert(out@ + tail_text(digits@.take(0)) =~= out@);
    }
    out
}

/// The digits in `rev`, which holds the least significant digit first, read
/// as text with the most significant digit first.
pub closed spec fn tail_text(rev: Seq<u8>) -> Seq<char>
    decreases rev.len(),
{
    if rev.len() == 0 {
        Seq::empty()
    } else {
        seq![digit_char(rev.last() as int)] + tail_text(rev.drop_last())
    }
}

/// The one-character text of the digit `d`.
fn digit_str(d: u8) -> (s: &'static str)
    requires
        d < 10,
    ensures
        s@ == seq![digit_char(d as int)],
{
    proof {
        reveal_strlit("0");
        reveal_strlit("1");
        reveal_strlit("2");
        reveal_strlit("3");
        reveal_strlit("4");
        reveal_strlit("5");
        reveal_strlit("6");
        reveal_strlit("7");
        reveal_strlit("8");
        reveal_strlit("9");
    }
    let s = if d == 0 {
        "0"
    } else if d == 1 {
        "1"
    } else if d == 2 {
        "2"
    } else if d == 3 {
        "3"
    } else if d == 4 {
        "4"
    } else if d == 5 {
        "5"
    } else if d == 6 {
        "6"
    } else if d == 7 {
        "7"
    } else if d == 8 {
        "8"
    } else {
        "9"
    };
    assert(s@ =~= seq![digit_char(d as int)]);
    s
}

/// The decimal notation of `n`, with a minus sign if it is negative.
pub fn format_i64(n: i64) -> (out: String)
    ensures
        out@ == signed_decimal(n as int),
{
    if n < 0 {
        let magnitude: u64 = (-(n as i128)) as u64;
        let digits = format_u64(magnitude);
        let mut out = String::new();
        proof {
            reveal_strlit("-");
        }
        out.append("-");
        out.append(digits.as_str());
        proof {
            assert(out@ =~= seq!['-'] + decimal((-n) as nat));
        }
        out
    } else {
        format_u64(n as u64)
    }
}

/// Reads a signed decimal number that fits in 64 bits.
pub fn parse_i64(s: &Vec<char>) -> (r: Option<i64>)
    ensures
        r.is_some() == parse_int(s@, i64::MIN as int, i64::MAX as int).is_some(),
        r.is_some() ==> r.unwrap() as int == parse_int(
            s@,
            i64::MIN as int,
            i64::MAX as int,
        ).unwrap(),
{
    let n = s.len();
    if n == 0 {
        return None;
    }
    let negative = s[0] == '-';
    let start: usize = if s[0] == '-' || s[0] == '+' {
        1
    } else {
        0
    };
    let ghost body = s@.skip(start as int);
    if start == n {
        return None;
    }
    let limit: u128 = if negative {
        9223372036854775808
    } else {
        9223372036854775807
    };
    let mut acc: u128 = 0;
    let mut i: usize = start;
    proof {
        assert(body.take(0) =~= Seq::<char>::empty());
    }
    while i < n
        invariant
            n == s.len(),
            start <= i <= n,
            start == sign_len(s@),
            negative == has_minus(s@),
            body == s@.skip(start as int),
            limit == if negative {
                9223372036854775808u128
            } else {
                9223372036854775807u128
            },
            acc == digits_value(body.take(i - start)),
            acc <= limit,
            forall|k: int| 0 <= k < i - start ==> is_digit(#[trigger] body[k]),
        decreases n - i,
    {
        let c = s[i];
        let code: u32 = c as u32;
        if code < 48 || code > 57 {
            proof {
                assert(body[i - start] == c);
                assert(!is_digit(body[i - start]));
            }
            return None;
        }
        let d: u128 = (code - 48) as u128;
        let next: u128 = acc * 10 + d;
        proof {
            assert(body[i - start] == c);
            lemma_digits_value_step(body, i - start);
        }
        if next > limit {
            proof {
                if all_digits(body) {
                    lemma_digits_value_grows(body, i - start + 1);
                }
            }
            return None;
        }
        acc = next;
        i += 1;
    }
    proof {
        assert(body.take(n - start) =~= body);
    }
    if negative {
        Some((-(acc as i128)) as i64)
    } else {
        Some(acc as i64)
    }
}

/// Reads a signed decimal number that fits in 32 bits.
pub fn parse_i32(s: &Vec<char>) -> (r: Option<i32>)
    ensures
        r.is_some() == parse_int(s@, i32::MIN as int, i32::MAX as int).is_some(),
        r.is_some() ==> r.unwrap() as int == parse_int(
            s@,
            i32::MIN as int,
            i32::MAX as int,
        ).unwrap(),
{
    match parse_i64(s) {
        Some(v) => if -2147483648 <= v && v <= 2147483647 {
            Some(v as i32)
        } else {
            None
        },
        None => None,
    }
}

/// Reads an unsigned decimal number that fits in 32 bits.
pub fn parse_u32(s: &Vec<char>) -> (r: Option<u32>)
    ensures
        r.is_some() == parse_unsigned(s@, u32::MAX as int).is_some(),
        r.is_some() ==> r.unwrap() as int == parse_unsigned(s@, u32::MAX as int).unwrap(),
{
    if s.len() > 0 && s[0] == '-' {
        return None;
    }
    match parse_i64(s) {
        Some(v) => if 0 <= v && v <= 4294967295 {
            Some(v as u32)
        } else {
            None
        },
        None => None,
    }
}

} // verus!
