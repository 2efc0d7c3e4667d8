//! Unsigned numbers written in decimal, or in hexadecimal after `0x`, or in
//! binary after `0b`, as the debugger front ends accept them.
use vstd::prelude::*;
use vstd::string::StringSliceAdditionalSpecFns;

verus! {

/// Why a number could not be read.
#[derive(Clone, Copy, Debug, PartialEq, Eq, Structural)]
pub enum ParseNumberError {
    /// No digits.
    Empty,
    /// A character that is no digit of the radix.
    InvalidDigit,
    /// The value does not fit the type.
    Overflow,
}

/// The value of an ASCII digit (letters count from 10, either case); 99 for
/// anything else.
pub open spec fn digit_value(c: u8) -> int {
    if 48 <= c <= 57 {
        c - 48
    } else if 97 <= c <= 122 {
        c - 87
    } else if 65 <= c <= 90 {
        c - 55
    } else {
        99
    }
}

/// Whether every character is a digit of the radix.
pub open spec fn all_digits(s: Seq<u8>, radix: int) -> bool {
    forall|i: int| 0 <= i < s.len() ==> #[trigger] digit_value(s[i]) < radix
}

/// The value of a string of digits.
pub open spec fn value_of(s: Seq<u8>, radix: int) -> int
    decreases s.len(),
{
    if s.len() == 0 {
        0
    } else {
        value_of(s.drop_last(), radix) * radix + digit_value(s.last())
    }
}

/// The digits of a number: after an optional `+`.
pub open spec fn digits_of(s: Seq<u8>) -> Seq<u8> {
    if s.len() > 0 && s[0] == 43 {
        s.drop_first()
    } else {
        s
    }
}

/// The radix and the rest of a string after its prefix.
pub open spec fn radix_and_body(s: Seq<u8>) -> (int, Seq<u8>) {
    if s.len() >= 2 && s[0] == 48 && s[1] == 120 {
        (16, s.subrange(2, s.len() as int))
    } else if s.len() >= 2 && s[0] == 48 && s[1] == 98 {
        (2, s.subrange(2, s.len() as int))
    } else {
        (10, s)
    }
}

/// Whether a string is a number not above `max`.
pub open spec fn parses(s: Seq<u8>, max: int) -> bool {
    let (radix, body) = radix_and_body(s);
    let d = digits_of(body);
    d.len() > 0 && all_digits(d, radix) && value_of(d, radix) <= max
}

/// The value of a string that `parses`.
pub open spec fn parsed_value(s: Seq<u8>) -> int {
    let (radix, body) = radix_and_body(s);
    value_of(digits_of(body), radix)
}

fn digit(c: u8) -> (r: u64)
    ensures
        r == digit_value(c),
{
    if 48 <= c && c <= 57 {
        (c - 48) as u64
    } else if 97 <= c && c <= 122 {
        (c - 87) as u64
    } else if 65 <= c && c <= 90 {
        (c - 55) as u64
    } else {
        99
    }
}

/// A longer string of valid digits is worth at least as much as its prefix.
proof fn lemma_value_grows(s: Seq<u8>, radix: int, n: int)
    requires
        radix >= 2,
        0 <= n <= s.len(),
        all_digits(s, radix),
    ensures
        value_of(s.subrange(0, n), radix) <= value_of(s, radix),
        value_of(s, radix) >= 0,
    decreases s.len(),
{
    if s.len() == 0 {
        assert(s.subrange(0, n) =~= s);
    } else if n == s.len() {
        assert(s.subrange(0, n) =~= s);
        lemma_value_grows(s.drop_last(), radix, 0);
    } else {
        let p = s.drop_last();
        assert(all_digits(p, radix)) by {
            assert forall|i: int| 0 <= i < p.len() implies #[trigger] digit_value(p[i]) < radix by {
                assert(p[i] == s[i]);
            }
        }
        lemma_value_grows(p, radix, n);
        assert(p.subrange(0, n) =~= s.subrange(0, n));
        assert(digit_value(s.last()) >= 0);
        assert(value_of(p, radix) * radix >= value_of(p, radix)) by (nonlinear_arith)
            requires
                value_of(p, radix) >= 0,
                radix >= 2,
        ;
    }
}

/// Reads the digits of `s` from `start` in a radix, with an optional `+`.
fn parse_digits(s: &[u8], start: usize, radix: u64, max: u64) -> (r: Result<u64, ParseNumberError>)
    requires
        start <= s@.len(),
        radix == 2 || radix == 10 || radix == 16,
        max >= 15,
    ensures
        ({
            let d = digits_of(s@.subrange(start as int, s@.len() as int));
            &&& (r is Ok <==> (d.len() > 0 && all_digits(d, radix as int) && value_of(d, radix as int) <= max))
            &&& r matches Ok(v) ==> v == value_of(d, radix as int)
            &&& d.len() == 0 ==> r == Err::<u64, ParseNumberError>(ParseNumberError::Empty)
        }),
{
    let ghost body = s@.subrange(start as int, s@.len() as int);
    let mut i: usize = start;
    if i < s.len() && s[i] == 43 {
        i = i + 1;
    }
    let ghost d = digits_of(body);
    assert(d =~= s@.subrange(i as int, s@.len() as int));
    if i == s.len() {
        return Err(ParseNumberError::Empty);
    }
    let first = i;
    let mut acc: u64 = 0;
    while i < s.len()
        invariant
            first <= i <= s@.len(),
            start <= first,
            d == digits_of(s@.subrange(start as int, s@.len() as int)),
            d =~= s@.subrange(first as int, s@.len() as int),
            radix == 2 || radix == 10 || radix == 16,
            all_digits(d.subrange(0, i - first), radix as int),
            acc == value_of(d.subrange(0, i - first), radix as int),
            acc <= max,
            max >= 15,
        decreases s@.len() - i,
    {
        let v = digit(s[i]);
        if v >= radix {
            proof {
                assert(d[i - first] == s@[i as int]);
                assert(digit_value(d[i - first]) >= radix);
                assert(!all_digits(d, radix as int));
            }
            return Err(ParseNumberError::InvalidDigit);
        }
        let ghost pre = d.subrange(0, i - first);
        let ghost next = d.subrange(0, i - first + 1);
        proof {
            assert(next.drop_last() =~= pre);
            assert(next.last() == s@[i as int]);
            assert forall|j: int| 0 <= j < next.len() implies #[trigger] digit_value(next[j]) < radix by {
                if j < pre.len() {
                    assert(next[j] == pre[j]);
                }
            }
        }
        let q: u64 = (max - v) / radix;
        let ghost (ai, mi, vi, ri, qi) = (acc as int, max as int, v as int, radix as int, q as int);
        assert(qi == (mi - vi) / ri);
        if acc > q {
            proof {
                assert(ai * ri + vi > mi) by (nonlinear_arith)
                    requires
                        ai > qi,
                        qi == (mi - vi) / ri,
                        ri >= 2,
                        0 <= vi < ri,
                        vi <= mi,
                ;
                assert(value_of(next, radix as int) == acc * radix + v);
                if all_digits(d, radix as int) {
                    lemma_value_grows(d, radix as int, i - first + 1);
                }
            }
            return Err(ParseNumberError::Overflow);
        }
        proof {
            assert(ai * ri + vi <= mi) by (nonlinear_arith)
                requires
                    0 <= ai <= qi,
                    qi == (mi - vi) / ri,
                    ri >= 2,
                    0 <= vi <= mi,
            ;
        }
        proof {
            assert(value_of(next, radix as int) == acc * radix + v);
        }
        acc = acc * radix + v;
        i = i + 1;
    }
    assert(d.subrange(0, i - first) =~= d);
    Ok(acc)
}

/// Reads a number not above `max`, in decimal or after `0x` or `0b`.
fn parse_number(s: &str, max: u64) -> (r: Result<u64, ParseNumberError>)
    requires
        max >= 15,
    ensures
        r is Ok <==> parses(s.spec_bytes(), max as int),
        r matches Ok(v) ==> v == parsed_value(s.spec_bytes()),
{
    let b = s.as_bytes();
    if b.len() >= 2 && b[0] == 48 && b[1] == 120 {
        parse_digits(b, 2, 16, max)
    } else if b.len() >= 2 && b[0] == 48 && b[1] == 98 {
        parse_digits(b, 2, 2, max)
    } else {
        proof {
            assert(b@.subrange(0, b@.len() as int) =~= b@);
        }
        parse_digits(b, 0, 10, max)
    }
}

/// Reads a byte: decimal, or hexadecimal after `0x`, or binary after `0b`.
pub fn parse_u8(s: &str) -> (r: Result<u8, ParseNumberError>)
    ensures
        r is Ok <==> parses(s.spec_bytes(), 255),
        r matches Ok(v) ==> v == parsed_value(s.spec_bytes()),
{
    match parse_number(s, 255) {
        Ok(v) => Ok(v as u8),
        Err(e) => Err(e),
    }
}

/// Reads a word: decimal, or hexadecimal after `0x`, or binary after `0b`.
pub fn parse_u16(s: &str) -> (r: Result<u16, ParseNumberError>)
    ensures
        r is Ok <==> parses(s.spec_bytes(), 65535),
        r matches Ok(v) ==> v == parsed_value(s.spec_bytes()),
{
    match parse_number(s, 65535) {
        Ok(v) => Ok(v as u16),
        Err(e) => Err(e),
    }
}

/// Reads a size: decimal, or hexadecimal after `0x`, or binary after `0b`.
pub fn parse_usize(s: &str) -> (r: Result<usize, ParseNumberError>)
    ensures
        r is Ok <==> parses(s.spec_bytes(), usize::MAX as int),
        r matches Ok(v) ==> v == parsed_value(s.spec_bytes()),
{
    match parse_number(s, usize::MAX as u64) {
        Ok(v) => Ok(v as usize),
        Err(e) => Err(e),
    }
}

} // verus!
