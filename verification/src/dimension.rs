//! Exact decimal dimensions.
//!
//! A shape dimension is held in ten-thousandths of a unit, matching the
//! four decimal places of the rendered reports.  Numerals with an optional
//! sign, an optional decimal point and up to four fractional digits parse
//! exactly; anything else is rejected.

use vstd::prelude::*;
use vstd::string::*;
use crate::text::find_spec;
use crate::text::find_char;
use crate::text::lemma_find_spec;

verus! {

/// A length held exactly as a signed count of ten-thousandths of a unit.
#[derive(Clone, Copy, PartialEq, Eq, Structural, Debug)]
pub struct Dimension {
    /// The value in ten-thousandths of a unit.
    pub raw: i64,
}

impl Dimension {
    /// The zero dimension.
    pub fn zero() -> (r: Dimension)
        ensures
            r.raw == 0,
    {
        Dimension { raw: 0 }
    }

    /// A whole number of units.
    pub fn from_whole(n: i64) -> (r: Dimension)
        requires
            -922337203685477 <= n <= 922337203685477,
        ensures
            r.raw == n * 10000,
    {
        Dimension { raw: n * 10000 }
    }
}

pub open spec fn is_digit(c: char) -> bool {
    48 <= c as int <= 57
}

pub open spec fn digit_val(c: char) -> int {
    c as int - 48
}

pub open spec fn all_digits(s: Seq<char>) -> bool {
    forall|i: int| 0 <= i < s.len() ==> is_digit(#[trigger] s[i])
}

/// The number denoted by a sequence of decimal digits (most significant first).
pub open spec fn digits_val(s: Seq<char>) -> int
    decreases s.len(),
{
    if s.len() == 0 {
        0
    } else {
        digits_val(s.drop_last()) * 10 + digit_val(s.last())
    }
}

pub proof fn lemma_digits_val_nonneg(s: Seq<char>)
    requires
        all_digits(s),
    ensures
        digits_val(s) >= 0,
    decreases s.len(),
{
    if s.len() > 0 {
        assert(all_digits(s.drop_last()));
        lemma_digits_val_nonneg(s.drop_last());
    }
}

pub proof fn lemma_digits_val_prefix_le(s: Seq<char>, j: int)
    requires
        all_digits(s),
        0 <= j <= s.len(),
    ensures
        digits_val(s.take(j)) <= digits_val(s),
    decreases s.len() - j,
{
    if j < s.len() {
        assert(s.take(j + 1).drop_last() =~= s.take(j));
        assert(s.take(j + 1).last() == s[j]);
        assert(all_digits(s.take(j)));
        lemma_digits_val_nonneg(s.take(j));
        assert(digits_val(s.take(j + 1)) == digits_val(s.take(j)) * 10 + digit_val(s[j]));
        lemma_digits_val_prefix_le(s, j + 1);
    } else {
        assert(s.take(j) =~= s);
    }
}

/// The power of ten that scales a fractional part of `n` digits up to
/// ten-thousandths.
pub open spec fn frac_scale(n: int) -> int {
    if n == 0 {
        10000
    } else if n == 1 {
        1000
    } else if n == 2 {
        100
    } else if n == 3 {
        10
    } else {
        1
    }
}

/// The value, in ten-thousandths, of an unsigned decimal numeral: digits
/// with an optional decimal point and at most four fractional digits.
/// Numerals whose integral part reaches 10^14 are rejected, so that every
/// accepted value fits comfortably in an `i64`.
pub open spec fn parse_unsigned_spec(s: Seq<char>) -> Option<int> {
    let f = find_spec(s, '.');
    if f == s.len() {
        if s.len() > 0 && all_digits(s) && digits_val(s) < 100000000000000 {
            Some(digits_val(s) * 10000)
        } else {
            None
        }
    } else {
        let ip = s.take(f);
        let fp = s.skip(f + 1);
        if ip.len() + fp.len() > 0 && all_digits(ip) && all_digits(fp) && fp.len() <= 4
            && digits_val(ip) < 100000000000000 {
            Some(digits_val(ip) * 10000 + digits_val(fp) * frac_scale(fp.len() as int))
        } else {
            None
        }
    }
}

/// The dimension denoted by a decimal numeral with an optional sign.
pub open spec fn parse_dim_spec(s: Seq<char>) -> Option<Dimension> {
    if s.len() > 0 && (s[0] == '-' || s[0] == '+') {
        match parse_unsigned_spec(s.drop_first()) {
            Some(v) => Some(
                Dimension { raw: (if s[0] == '-' { -v } else { v as int }) as i64 },
            ),
            None => None,
        }
    } else {
        match parse_unsigned_spec(s) {
            Some(v) => Some(Dimension { raw: v as i64 }),
            None => None,
        }
    }
}

/// Check that every character of `s` is a decimal digit.
fn check_all_digits(s: &str) -> (r: bool)
    ensures
        r == all_digits(s@),
{
    let n = s.unicode_len();
    let mut i: usize = 0;
    while i < n
        invariant
            n == s@.len(),
            0 <= i <= n,
            forall|j: int| 0 <= j < i ==> is_digit(#[trigger] s@[j]),
        decreases n - i,
    {
        let u = s.get_char(i) as u32;
        if u < 48 || u > 57 {
            return false;
        }
        i += 1;
    }
    true
}

/// The value of a string of digits, or `None` once it reaches 10^14.
fn digits_value(s: &str) -> (r: Option<i64>)
    requires
        all_digits(s@),
    ensures
        match r {
            Some(v) => 0 <= v < 100000000000000 && v as int == digits_val(s@),
            None => digits_val(s@) >= 100000000000000,
        },
{
    let n = s.unicode_len();
    let mut acc: i64 = 0;
    let mut i: usize = 0;
    while i < n
        invariant
            all_digits(s@),
            n == s@.len(),
            0 <= i <= n,
            acc as int == digits_val(s@.take(i as int)),
            0 <= acc < 100000000000000,
        decreases n - i,
    {
        let u = s.get_char(i) as u32;
        let d = (u - 48) as i64;
        proof {
            assert(s@.take(i as int + 1).drop_last() =~= s@.take(i as int));
            assert(s@.take(i as int + 1).last() == s@[i as int]);
        }
        if acc >= 10000000000000 {
            proof {
                lemma_digits_val_prefix_le(s@, i as int + 1);
            }
            return None;
        }
        acc = acc * 10 + d;
        i += 1;
    }
    proof {
        assert(s@.take(n as int) =~= s@);
    }
    Some(acc)
}

/// The value, in ten-thousandths, of an unsigned decimal numeral.
fn parse_unsigned(s: &str) -> (r: Option<i64>)
    ensures
        match r {
            Some(v) => 0 <= v && parse_unsigned_spec(s@) == Some(v as int),
            None => parse_unsigned_spec(s@) is None,
        },
{
    let n = s.unicode_len();
    let f = find_char(s, '.');
    proof {
        lemma_find_spec(s@, '.');
    }
    if f == n {
        if n == 0 {
            return None;
        }
        if !check_all_digits(s) {
            return None;
        }
        match digits_value(s) {
            Some(v) => Some(v * 10000),
            None => None,
        }
    } else {
        let ip = s.substring_char(0, f);
        let fp = s.substring_char(f + 1, n);
        proof {
            assert(ip@ =~= s@.take(f as int));
            assert(fp@ =~= s@.skip(f as int + 1));
        }
        if f == 0 && n == 1 {
            return None;
        }
        if !check_all_digits(ip) || !check_all_digits(fp) {
            return None;
        }
        let fc = fp.unicode_len();
        if fc > 4 {
            return None;
        }
        let scale: i64 = if fc == 0 {
            10000
        } else if fc == 1 {
            1000
        } else if fc == 2 {
            100
        } else if fc == 3 {
            10
        } else {
            1
        };
        let fv = match digits_value(fp) {
            Some(v) => v,
            None => {
                proof {
                    lemma_frac_small(fp@);
                }
                return None;
            },
        };
        proof {
            lemma_frac_small(fp@);
        }
        match digits_value(ip) {
            Some(v) => Some(v * 10000 + fv * scale),
            None => None,
        }
    }
}

/// Ten to the `n`.
pub open spec fn pow10_small(n: int) -> int
    decreases n,
{
    if n <= 0 {
        1
    } else {
        10 * pow10_small(n - 1)
    }
}

/// A string of `n` digits denotes a value below ten to the `n`.
proof fn lemma_digits_val_upper(s: Seq<char>)
    requires
        all_digits(s),
    ensures
        0 <= digits_val(s) < pow10_small(s.len() as int),
    decreases s.len(),
{
    if s.len() == 0 {
    } else {
        assert(all_digits(s.drop_last()));
        lemma_digits_val_upper(s.drop_last());
    }
}

/// A fractional part of at most four digits is below ten thousand.
proof fn lemma_frac_small(s: Seq<char>)
    requires
        all_digits(s),
        s.len() <= 4,
    ensures
        0 <= digits_val(s) <= 9999,
{
    lemma_digits_val_upper(s);
    assert(pow10_small(s.len() as int) <= 10000) by {
        reveal_with_fuel(pow10_small, 5);
    };
}

/// Parse a decimal numeral with an optional leading sign into an exact
/// dimension.  Returns `None` for anything outside the accepted grammar.
pub fn parse_dimension(s: &str) -> (r: Option<Dimension>)
    ensures
        r == parse_dim_spec(s@),
{
    let n = s.unicode_len();
    if n > 0 {
        let c0 = s.get_char(0);
        if c0 == '-' || c0 == '+' {
            let rest = s.substring_char(1, n);
            proof {
                assert(rest@ =~= s@.drop_first());
            }
            return match parse_unsigned(rest) {
                Some(v) => if c0 == '-' {
                    Some(Dimension { raw: -v })
                } else {
                    Some(Dimension { raw: v })
                },
                None => None,
            };
        }
    }
    match parse_unsigned(s) {
        Some(v) => Some(Dimension { raw: v }),
        None => None,
    }
}

} // verus!
