//! Text: decimal numbers in both directions, UTF-8, and joining of pieces.

use vstd::prelude::*;
use vstd::utf8::{decode_utf8, valid_utf8};

verus! {

/// The character that stands for the digit `d`.
pub open spec fn digit_char(d: int) -> char {
    if d == 0 {
        '0'
    } else if d == 1 {
        '1'
    } else if d == 2 {
        '2'
    } else if d == 3 {
        '3'
    } else if d == 4 {
        '4'
    } else if d == 5 {
        '5'
    } else if d == 6 {
        '6'
    } else if d == 7 {
        '7'
    } else if d == 8 {
        '8'
    } else {
        '9'
    }
}

/// The decimal digits of `n`, most significant first, without leading zeros.
pub open spec fn decimal(n: nat) -> Seq<char>
    decreases n,
{
    if n < 10 {
        seq![digit_char(n as int)]
    } else {
        decimal(n / 10).push(digit_char((n % 10) as int))
    }
}

/// The decimal form of an integer: a minus sign before the digits of a
/// negative one.
pub open spec fn signed_decimal(i: int) -> Seq<char> {
    if i < 0 {
        seq!['-'] + decimal((-i) as nat)
    } else {
        decimal(i as nat)
    }
}

fn digit_str(d: u64) -> (r: &'static str)
    requires
        d < 10,
    ensures
        r@ == seq![digit_char(d as int)],
{
    proof {
        reveal_strlit("0");
        reveal_strlit("1");
        reveal_strlit("2");
        reveal_strlit("3");
        reveal_strlit("4");
        reveal_strlit("5");
        reveal_strlit("6");
        reveal_strlit("7");
        reveal_strlit("8");
        reveal_strlit("9");
    }
    let r = if d == 0 {
        "0"
    } else if d == 1 {
        "1"
    } else if d == 2 {
        "2"
    } else if d == 3 {
        "3"
    } else if d == 4 {
        "4"
    } else if d == 5 {
        "5"
    } else if d == 6 {
        "6"
    } else if d == 7 {
        "7"
    } else if d == 8 {
        "8"
    } else {
        "9"
    };
    assert(r@ =~= seq![digit_char(d as int)]);
    r
}

/// Writes `n` in decimal.
pub fn u64_text(n: u64) -> (r: String)
    ensures
        r@ == decimal(n as nat),
    decreases n,
{
    if n < 10 {
        String::from_str(digit_str(n))
    } else {
        let mut s = u64_text(n / 10);
        s.append(digit_str(n % 10));
        assert(s@ =~= decimal(n as nat));
        s
    }
}

/// Writes `i` in decimal, with a minus sign if it is negative.
pub fn i64_text(i: i64) -> (r: String)
    ensures
        r@ == signed_decimal(i as int),
{
    if i < 0 {
        let magnitude: u64 = ((-(i + 1)) as u64) + 1;
        let digits = u64_text(magnitude);
        let mut s = String::from_str("-");
        proof {
            reveal_strlit("-");
        }
        s.append(digits.as_str());
        assert(s@ =~= signed_decimal(i as int));
        s
    } else {
        u64_text(i as u64)
    }
}

/// `std::str::from_utf8`: the text that `bytes` encode, where they are valid
/// UTF-8, and `None` where they are not.
#[verifier::external_body]
fn utf8_str(bytes: &[u8]) -> (r: Option<&str>)
    ensures
        r is Some <==> valid_utf8(bytes@),
        r matches Some(s) ==> s@ == decode_utf8(bytes@),
{
    std::str::from_utf8(bytes).ok()
}

/// The text that `bytes` encode in UTF-8, if they encode any.
pub open spec fn text_of(bytes: Seq<u8>) -> Option<Seq<char>> {
    if valid_utf8(bytes) {
        Some(decode_utf8(bytes))
    } else {
        None
    }
}

/// Decodes `bytes` as UTF-8.
pub fn utf8_text(bytes: &[u8]) -> (r: Option<String>)
    ensures
        match r {
            Some(s) => text_of(bytes@) == Some(s@),
            None => text_of(bytes@) is None,
        },
{
    match utf8_str(bytes) {
        Some(s) => Some(String::from_str(s)),
        None => None,
    }
}

/// `a` followed by `b`.
pub fn concat2(a: &str, b: &str) -> (r: String)
    ensures
        r@ == a@ + b@,
{
    let mut r = String::from_str(a);
    r.append(b);
    r
}

/// `a`, `b` and `c` in a row.
pub fn concat3(a: &str, b: &str, c: &str) -> (r: String)
    ensures
        r@ == a@ + b@ + c@,
{
    let mut r = String::from_str(a);
    r.append(b);
    r.append(c);
    r
}

/// Five pieces in a row.
pub fn concat5(a: &str, b: &str, c: &str, d: &str, e: &str) -> (r: String)
    ensures
        r@ == a@ + b@ + c@ + d@ + e@,
{
    let mut r = String::from_str(a);
    r.append(b);
    r.append(c);
    r.append(d);
    r.append(e);
    r
}

/// Whether `b` is an ASCII digit.
pub open spec fn is_digit(b: u8) -> bool {
    48 <= b <= 57
}

/// Whether `s` holds nothing but ASCII digits.
pub open spec fn all_digits(s: Seq<u8>) -> bool {
    forall|i: int| 0 <= i < s.len() ==> is_digit(#[trigger] s[i])
}

/// The number that the ASCII digits in `s` write in decimal.
pub open spec fn digits_value(s: Seq<u8>) -> int
    decreases s.len(),
{
    if s.len() == 0 {
        0
    } else {
        digits_value(s.drop_last()) * 10 + (s.last() - 48)
    }
}

/// The integer that `s` writes in decimal, if it writes one that fits
/// `i64`: an optional sign, `+` or `-`, and then at least one digit and
/// nothing else.
pub open spec fn integer_of(s: Seq<u8>) -> Option<int> {
    let negative = s.len() > 0 && s[0] == 45;
    let signed = s.len() > 0 && (s[0] == 45 || s[0] == 43);
    let digits = if signed {
        s.skip(1)
    } else {
        s
    };
    let value = if negative {
        -digits_value(digits)
    } else {
        digits_value(digits)
    };
    if digits.len() > 0 && all_digits(digits) && i64::MIN <= value <= i64::MAX {
        Some(value)
    } else {
        None
    }
}

/// What the first digits of a number write is not negative and not more
/// than what all of them write.
pub proof fn lemma_digits_prefix(s: Seq<u8>, k: int)
    requires
        all_digits(s),
        0 <= k <= s.len(),
    ensures
        0 <= digits_value(s.take(k)) <= digits_value(s),
    decreases s.len(),
{
    if s.len() == 0 {
        assert(s.take(k) =~= s);
    } else if k == s.len() {
        assert(s.take(k) =~= s);
        lemma_digits_prefix(s.drop_last(), k - 1);
        assert(s.drop_last().take(k - 1) =~= s.drop_last());
        assert(is_digit(s.last()));
    } else {
        assert(s.take(k) =~= s.drop_last().take(k));
        assert forall|i: int| 0 <= i < s.drop_last().len() implies is_digit(
            #[trigger] s.drop_last()[i],
        ) by {
            assert(s.drop_last()[i] == s[i]);
        }
        lemma_digits_prefix(s.drop_last(), k);
        assert(is_digit(s.last()));
    }
}

/// Reads a decimal integer, with an optional sign before its digits.
pub fn parse_i64(bytes: &[u8]) -> (r: Option<i64>)
    ensures
        match r {
            Some(v) => integer_of(bytes@) == Some(v as int),
            None => integer_of(bytes@) is None,
        },
{
    let n = bytes.len();
    if n == 0 {
        return None;
    }
    let negative = bytes[0] == 45;
    let start: usize = if bytes[0] == 45 || bytes[0] == 43 {
        1
    } else {
        0
    };
    let ghost digits = bytes@.skip(start as int);
    if start == n {
        return None;
    }
    // The digits are summed up below zero, where `i64` has room for one more.
    let mut below: i64 = 0;
    let mut i: usize = start;
    assert(digits.take(0) =~= Seq::<u8>::empty());
    assert(bytes@.skip(0) =~= bytes@);
    while i < n
        invariant
            start <= i <= n,
            0 < n == bytes@.len(),
            negative == (bytes@[0] == 45),
            start == if bytes@[0] == 45 || bytes@[0] == 43 {
                1int
            } else {
                0int
            },
            digits == bytes@.skip(start as int),
            bytes@.skip(0) == bytes@,
            all_digits(digits.take(i - start)),
            below == -digits_value(digits.take(i - start)),
        decreases n - i,
    {
        let b = bytes[i];
        let ghost before = digits.take(i - start);
        let ghost after = digits.take(i - start + 1);
        assert(digits[i - start] == b);
        assert(after.drop_last() =~= before);
        assert(after.last() == b);
        if b < 48 || b > 57 {
            assert(!all_digits(digits));
            return None;
        }
        let wide: i128 = (below as i128) * 10 - ((b - 48) as i128);
        if wide < i64::MIN as i128 {
            proof {
                assert(digits_value(after) == -wide);
                if all_digits(digits) {
                    lemma_digits_prefix(digits, i - start + 1);
                }
            }
            return None;
        }
        proof {
            lemma_digits_prefix(after, after.len() as int);
            assert(after.take(after.len() as int) =~= after);
        }
        below = wide as i64;
        i += 1;
    }
    assert(digits.take(i - start) =~= digits);
    if negative {
        Some(below)
    } else if below == i64::MIN {
        None
    } else {
        Some(-below)
    }
}

/// The position of the first `c` in `s`, or the length of `s` if it has
/// none.
pub open spec fn first_index(s: Seq<char>, c: char) -> int
    decreases s.len(),
{
    if s.len() == 0 {
        0
    } else if s[0] == c {
        0
    } else {
        1 + first_index(s.skip(1), c)
    }
}

/// `first_index` finds a `c`, and the first one, if there is any.
pub proof fn lemma_first_index(s: Seq<char>, c: char)
    ensures
        0 <= first_index(s, c) <= s.len(),
        forall|k: int| 0 <= k < first_index(s, c) ==> s[k] != c,
        first_index(s, c) < s.len() ==> s[first_index(s, c)] == c,
    decreases s.len(),
{
    if s.len() > 0 && s[0] != c {
        let rest = s.skip(1);
        lemma_first_index(rest, c);
        assert forall|k: int| 0 <= k < first_index(s, c) implies s[k] != c by {
            if k > 0 {
                assert(rest[k - 1] == s[k]);
            }
        }
        if first_index(s, c) < s.len() {
            assert(rest[first_index(rest, c)] == s[first_index(s, c)]);
        }
    }
}

/// A position before which `s` has no `c`, and at which it has one or ends,
/// is the position of the first `c`.
pub proof fn lemma_first_index_is(s: Seq<char>, c: char, at: int)
    requires
        0 <= at <= s.len(),
        forall|k: int| 0 <= k < at ==> s[k] != c,
        at < s.len() ==> s[at] == c,
    ensures
        first_index(s, c) == at,
{
    lemma_first_index(s, c);
    if first_index(s, c) < at {
        assert(s[first_index(s, c)] == c);
    }
}

/// Finds the first `c` in `s`.
pub fn find_char(s: &str, c: char) -> (r: usize)
    ensures
        r == first_index(s@, c),
        r <= s@.len(),
{
    let len = s.unicode_len();
    let mut at: usize = 0;
    while at < len && s.get_char(at) != c
        invariant
            at <= len,
            len == s@.len(),
            forall|k: int| 0 <= k < at ==> s@[k] != c,
        decreases len - at,
    {
        at += 1;
    }
    proof {
        lemma_first_index_is(s@, c, at as int);
    }
    at
}

/// Whether two texts are the same.
pub fn same_text(a: &str, b: &str) -> (r: bool)
    ensures
        r == (a@ == b@),
{
    let left = String::from_str(a);
    let right = String::from_str(b);
    left == right
}

/// The bytes of a text that is written in ASCII.
pub open spec fn ascii_bytes(s: Seq<char>) -> Seq<u8> {
    s.map_values(|c: char| c as u8)
}

/// The digits that write a number are digits, and they write that number.
pub proof fn lemma_decimal_digits(n: nat)
    ensures
        decimal(n).len() > 0,
        all_digits(ascii_bytes(decimal(n))),
        digits_value(ascii_bytes(decimal(n))) == n,
    decreases n,
{
    let bytes = ascii_bytes(decimal(n));
    if n < 10 {
        assert(bytes =~= seq![(48 + n) as u8]);
        assert(bytes.drop_last() =~= Seq::<u8>::empty());
        assert(digits_value(bytes.drop_last()) == 0);
        assert(bytes.last() == 48 + n);
    } else {
        lemma_decimal_digits(n / 10);
        let front = ascii_bytes(decimal(n / 10));
        assert(bytes =~= front.push((48 + n % 10) as u8));
        assert(bytes.drop_last() =~= front);
        assert(bytes.last() == 48 + n % 10);
        assert(digits_value(bytes) == digits_value(front) * 10 + (bytes.last() - 48));
        assert forall|i: int| 0 <= i < bytes.len() implies is_digit(#[trigger] bytes[i]) by {
            if i < front.len() {
                assert(bytes[i] == front[i]);
            }
        }
    }
}

/// What is written in decimal is read back as the same number: writing and
/// reading are inverse on every integer that fits `i64`.
pub proof fn lemma_decimal_round_trip(i: int)
    requires
        i64::MIN <= i <= i64::MAX,
    ensures
        integer_of(ascii_bytes(signed_decimal(i))) == Some(i),
{
    let bytes = ascii_bytes(signed_decimal(i));
    if i < 0 {
        lemma_decimal_digits((-i) as nat);
        let digits = ascii_bytes(decimal((-i) as nat));
        assert(bytes =~= seq![45u8] + digits);
        assert(bytes.skip(1) =~= digits);
    } else {
        lemma_decimal_digits(i as nat);
        assert(is_digit(bytes[0]));
    }
}

} // verus!
