//! Decimal numerals: parsing them as `str::parse` does for `i32` and `u32`,
//! and writing unsigned integers out in decimal.
use vstd::prelude::*;

verus! {

/// `c` is one of the ASCII digits `0`..`9`.
pub open spec fn is_digit(c: char) -> bool {
    48 <= (c as u32) <= 57
}

/// The value of the ASCII digit `c`.
pub open spec fn digit_value(c: char) -> int {
    (c as u32) - 48
}

/// Every character of `s` is an ASCII digit.
pub open spec fn all_digits(s: Seq<char>) -> bool {
    forall|i: int| 0 <= i < s.len() ==> is_digit(#[trigger] s[i])
}

/// The value of the digit string `s`, most significant digit first.
pub open spec fn digits_value(s: Seq<char>) -> int
    decreases s.len(),
{
    if s.len() == 0 {
        0
    } else {
        digits_value(s.drop_last()) * 10 + digit_value(s.last())
    }
}

/// The integer that `s` denotes in the syntax that `str::parse` accepts for
/// Rust's primitive integers: an optional sign (`-` only where `signed`)
/// followed by one or more ASCII digits, and nothing else.
pub open spec fn numeral_value(s: Seq<char>, signed: bool) -> Option<int> {
    if s.len() == 0 {
        None
    } else {
        let negative = signed && s[0] == '-';
        let digits = if s[0] == '+' || negative {
            s.drop_first()
        } else {
            s
        };
        if digits.len() > 0 && all_digits(digits) {
            Some(
                if negative {
                    -digits_value(digits)
                } else {
                    digits_value(digits)
                },
            )
        } else {
            None
        }
    }
}

/// What `str::parse::<i32>` gives for `s` (`None` for an error): the value
/// of the numeral, when it is one and fits in an `i32`.
pub open spec fn parse_i32_spec(s: Seq<char>) -> Option<i32> {
    match numeral_value(s, true) {
        Some(v) => if i32::MIN <= v <= i32::MAX {
            Some(v as i32)
        } else {
            None
        },
        None => None,
    }
}

/// What `str::parse::<u32>` gives for `s` (`None` for an error).
pub open spec fn parse_u32_spec(s: Seq<char>) -> Option<u32> {
    match numeral_value(s, false) {
        Some(v) => if 0 <= v <= u32::MAX {
            Some(v as u32)
        } else {
            None
        },
        None => None,
    }
}

/// The value of a digit string does not shrink as digits are appended.
proof fn lemma_prefix_value_le(s: Seq<char>, k: int)
    requires
        0 <= k <= s.len(),
        all_digits(s),
    ensures
        0 <= digits_value(s.take(k)) <= digits_value(s),
    decreases s.len(),
{
    if s.len() > 0 {
        let d = s.drop_last();
        assert(all_digits(d)) by {
            assert forall|i: int| 0 <= i < d.len() implies is_digit(#[trigger] d[i]) by {
                assert(d[i] == s[i]);
            }
        }
        assert(is_digit(s[s.len() - 1]));
        if k == s.len() {
            assert(s.take(k) =~= s);
            lemma_prefix_value_le(d, d.len() as int);
            assert(d.take(d.len() as int) =~= d);
        } else {
            lemma_prefix_value_le(d, k);
            assert(d.take(k) =~= s.take(k));
            lemma_prefix_value_le(d, d.len() as int);
            assert(d.take(d.len() as int) =~= d);
        }
    }
}

/// Reads the digits `s[start..]` as an unsigned number no larger than
/// `bound`; `None` when there are none, when one is not a digit, or when the
/// number exceeds `bound`.
fn parse_magnitude(s: &Vec<char>, start: usize, bound: u64) -> (r: Option<u64>)
    requires
        start <= s.len(),
        bound <= u32::MAX + 1,
    ensures
        ({
            let digits = s@.skip(start as int);
            r == if digits.len() > 0 && all_digits(digits) && digits_value(digits) <= bound {
                Some(digits_value(digits) as u64)
            } else {
                None::<u64>
            }
        }),
        r matches Some(v) ==> v <= bound && v as int == digits_value(s@.skip(start as int)),
{
    let ghost digits = s@.skip(start as int);
    if start == s.len() {
        return None;
    }
    let mut acc: u64 = 0;
    let mut i = start;
    assert(digits.take(0) =~= seq![]);
    while i < s.len()
        invariant
            start <= i <= s.len(),
            digits == s@.skip(start as int),
            bound <= u32::MAX + 1,
            all_digits(digits.take(i - start)),
            acc as int == digits_value(digits.take(i - start)),
            acc <= bound,
        decreases s.len() - i,
    {
        let c = s[i];
        assert(digits[i - start] == c);
        let v = c as u32;
        if v < 48 || v > 57 {
            assert(!all_digits(digits)) by {
                assert(!is_digit(digits[i - start]));
            }
            return None;
        }
        let next = acc * 10 + (v - 48) as u64;
        let ghost pre = digits.take(i - start);
        let ghost now = digits.take(i + 1 - start);
        assert(now.drop_last() =~= pre);
        assert(all_digits(now)) by {
            assert forall|j: int| 0 <= j < now.len() implies is_digit(#[trigger] now[j]) by {
                if j < pre.len() {
                    assert(now[j] == pre[j]);
                }
            }
        }
        if next > bound {
            assert(!(all_digits(digits) && digits_value(digits) <= bound)) by {
                if all_digits(digits) {
                    lemma_prefix_value_le(digits, i + 1 - start);
                }
            }
            return None;
        }
        acc = next;
        i = i + 1;
    }
    assert(digits.take(s.len() - start) =~= digits);
    Some(acc)
}

/// `str::parse::<i32>` on the characters `s`, with `None` for every error.
pub fn parse_i32(s: &Vec<char>) -> (r: Option<i32>)
    ensures
        r == parse_i32_spec(s@),
{
    if s.len() == 0 {
        return None;
    }
    let c = s[0];
    if c == '-' {
        let m = parse_magnitude(s, 1, 2147483648);
        assert(s@.drop_first() =~= s@.skip(1));
        match m {
            Some(v) => Some((0 - (v as i64)) as i32),
            None => None,
        }
    } else if c == '+' {
        let m = parse_magnitude(s, 1, 2147483647);
        assert(s@.drop_first() =~= s@.skip(1));
        match m {
            Some(v) => Some(v as i32),
            None => None,
        }
    } else {
        let m = parse_magnitude(s, 0, 2147483647);
        assert(s@ =~= s@.skip(0));
        match m {
            Some(v) => Some(v as i32),
            None => None,
        }
    }
}

/// `str::parse::<u32>` on the characters `s`, with `None` for every error.
pub fn parse_u32(s: &Vec<char>) -> (r: Option<u32>)
    ensures
        r == parse_u32_spec(s@),
{
    if s.len() == 0 {
        return None;
    }
    let start: usize = if s[0] == '+' { 1 } else { 0 };
    let m = parse_magnitude(s, start, 4294967295);
    assert(s@.drop_first() =~= s@.skip(1));
    assert(s@ =~= s@.skip(0));
    match m {
        Some(v) => Some(v as u32),
        None => None,
    }
}

/// The ASCII digit for `d`.
pub open spec fn digit_char(d: int) -> char {
    (d + 48) as char
}

/// The decimal numeral for `n`, without leading zeros.
pub open spec fn decimal_digits(n: nat) -> Seq<char>
    decreases n,
{
    if n < 10 {
        seq![digit_char(n as int)]
    } else {
        decimal_digits(n / 10).push(digit_char((n % 10) as int))
    }
}

/// The digit written for a value below ten reads back as that value.
proof fn lemma_digit_char(d: int)
    requires
        0 <= d < 10,
    ensures
        is_digit(digit_char(d)),
        digit_value(digit_char(d)) == d,
{
    assert((d + 48) as char as u32 == d + 48);
}

/// The ASCII digit for a value below ten.
fn digit_of(d: u64) -> (c: char)
    requires
        d < 10,
    ensures
        c == digit_char(d as int),
{
    let code: u8 = 48 + d as u8;
    code as char
}

/// The decimal numeral for `n`.
pub fn decimal_chars(n: u64) -> (r: Vec<char>)
    ensures
        r@ == decimal_digits(n as nat),
    decreases n,
{
    if n < 10 {
        let mut v = Vec::new();
        v.push(digit_of(n));
        assert(v@ =~= seq![digit_char(n as int)]);
        v
    } else {
        let mut v = decimal_chars(n / 10);
        v.push(digit_of(n % 10));
        v
    }
}

/// A numeral written by `decimal_digits` is a digit string of that value.
pub proof fn lemma_decimal_digits_value(n: nat)
    ensures
        decimal_digits(n).len() > 0,
        all_digits(decimal_digits(n)),
        digits_value(decimal_digits(n)) == n,
    decreases n,
{
    if n >= 10 {
        lemma_decimal_digits_value(n / 10);
        let d = decimal_digits(n / 10);
        let e = d.push(digit_char((n % 10) as int));
        lemma_digit_char((n % 10) as int);
        assert(e.drop_last() =~= d);
        assert(decimal_digits(n) == e);
        assert(digits_value(e) == digits_value(d) * 10 + digit_value(e.last()));
        assert(n == (n / 10) * 10 + n % 10);
        assert forall|i: int| 0 <= i < e.len() implies is_digit(#[trigger] e[i]) by {
            if i < d.len() {
                assert(e[i] == d[i]);
            }
        }
    } else {
        let e = seq![digit_char(n as int)];
        lemma_digit_char(n as int);
        assert(e.drop_last() =~= Seq::<char>::empty());
        assert(decimal_digits(n) == e);
        assert(digits_value(e) == digits_value(e.drop_last()) * 10 + digit_value(e.last()));
    }
}

/// Reading back what `decimal_chars` writes gives the number again: a window
/// id saved as text and restored from it is the same id.
pub proof fn lemma_u32_decimal_roundtrip(n: u32)
    ensures
        parse_u32_spec(decimal_digits(n as nat)) == Some(n),
{
    lemma_decimal_digits_value(n as nat);
    let s = decimal_digits(n as nat);
    assert(is_digit(s[0]));
}

} // verus!
