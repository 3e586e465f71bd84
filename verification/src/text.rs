//! Character-level helpers: equality, trimming, splitting.
//!
//! Input handling works on whole `&str` values viewed as sequences of
//! characters.  Whitespace means the four ASCII whitespace characters.

use vstd::prelude::*;
use vstd::string::*;

verus! {

/// The whitespace characters that the library trims from input.
pub open spec fn is_space(c: char) -> bool {
    c == ' ' || c == '\t' || c == '\r' || c == '\n'
}

pub(crate) fn is_space_char(c: char) -> (r: bool)
    ensures
        r == is_space(c),
{
    c == ' ' || c == '\t' || c == '\r' || c == '\n'
}

/// Whether two strings hold the same characters.
pub(crate) fn str_eq(a: &str, b: &str) -> (r: bool)
    ensures
        r == (a@ == b@),
{
    let alen = a.unicode_len();
    let blen = b.unicode_len();
    if alen != blen {
        return false;
    }
    let mut i: usize = 0;
    while i < alen
        invariant
            alen == a@.len(),
            blen == b@.len(),
            alen == blen,
            0 <= i <= alen,
            forall|j: int| 0 <= j < i ==> a@[j] == b@[j],
        decreases alen - i,
    {
        if a.get_char(i) != b.get_char(i) {
            return false;
        }
        i += 1;
    }
    proof {
        assert(a@ =~= b@);
    }
    true
}

/// The index of the first occurrence of `c` in `s`, or `s.len()` if absent.
pub open spec fn find_spec(s: Seq<char>, c: char) -> int
    decreases s.len(),
{
    if s.len() == 0 {
        0
    } else if s[0] == c {
        0
    } else {
        1 + find_spec(s.drop_first(), c)
    }
}

pub proof fn lemma_find_spec(s: Seq<char>, c: char)
    ensures
        0 <= find_spec(s, c) <= s.len(),
        find_spec(s, c) < s.len() ==> s[find_spec(s, c)] == c,
        forall|j: int| 0 <= j < find_spec(s, c) ==> s[j] != c,
    decreases s.len(),
{
    if s.len() == 0 {
    } else if s[0] == c {
    } else {
        lemma_find_spec(s.drop_first(), c);
        assert forall|j: int| 0 <= j < find_spec(s, c) implies s[j] != c by {
            if j >= 1 {
                assert(s.drop_first()[j - 1] != c);
            }
        };
    }
}

pub(crate) fn find_char(s: &str, c: char) -> (r: usize)
    ensures
        r == find_spec(s@, c),
{
    let n = s.unicode_len();
    let mut i: usize = 0;
    while i < n
        invariant
            n == s@.len(),
            0 <= i <= n,
            forall|j: int| 0 <= j < i ==> s@[j] != c,
        decreases n - i,
    {
        if s.get_char(i) == c {
            proof {
                lemma_find_spec(s@, c);
            }
            return i;
        }
        i += 1;
    }
    proof {
        lemma_find_spec(s@, c);
    }
    n
}

/// The pieces of `s` between occurrences of `sep`: one piece more than
/// there are separators, in order, each without the separator itself.
pub open spec fn split_spec(s: Seq<char>, sep: char) -> Seq<Seq<char>>
    decreases s.len(),
{
    let f = find_spec(s, sep);
    if 0 <= f < s.len() {
        seq![s.take(f)] + split_spec(s.skip(f + 1), sep)
    } else {
        seq![s]
    }
}

pub(crate) fn split_str(s: &str, sep: char) -> (r: Vec<String>)
    ensures
        r@.map_values(|t: String| t@) == split_spec(s@, sep),
    decreases s@.len(),
{
    let n = s.unicode_len();
    let f = find_char(s, sep);
    proof {
        lemma_find_spec(s@, sep);
    }
    if f < n {
        let head = s.substring_char(0, f);
        let tail = s.substring_char(f + 1, n);
        proof {
            assert(tail@ =~= s@.skip(f as int + 1));
            assert(head@ =~= s@.take(f as int));
        }
        let mut rest = split_str(tail, sep);
        rest.insert(0, String::from_str(head));
        proof {
            assert(rest@.map_values(|t: String| t@) =~= seq![s@.take(f as int)]
                + split_spec(s@.skip(f as int + 1), sep));
        }
        rest
    } else {
        let mut out: Vec<String> = Vec::new();
        out.push(String::from_str(s));
        proof {
            assert(out@.map_values(|t: String| t@) =~= seq![s@]);
        }
        out
    }
}

/// `s` without its leading whitespace.
pub open spec fn trim_start_spec(s: Seq<char>) -> Seq<char>
    decreases s.len(),
{
    if s.len() > 0 && is_space(s[0]) {
        trim_start_spec(s.drop_first())
    } else {
        s
    }
}

/// `s` without its trailing whitespace.
pub open spec fn trim_end_spec(s: Seq<char>) -> Seq<char>
    decreases s.len(),
{
    if s.len() > 0 && is_space(s.last()) {
        trim_end_spec(s.drop_last())
    } else {
        s
    }
}

/// `s` without leading and trailing whitespace.
pub open spec fn trim_spec(s: Seq<char>) -> Seq<char> {
    trim_end_spec(trim_start_spec(s))
}

pub(crate) fn trim_str(s: &str) -> (r: String)
    ensures
        r@ == trim_spec(s@),
{
    let n = s.unicode_len();
    proof {
        assert(s@.skip(0) =~= s@);
    }
    let mut a: usize = 0;
    while a < n && is_space_char(s.get_char(a))
        invariant
            n == s@.len(),
            0 <= a <= n,
            trim_start_spec(s@) == trim_start_spec(s@.skip(a as int)),
        decreases n - a,
    {
        proof {
            assert(s@.skip(a as int).drop_first() =~= s@.skip(a as int + 1));
        }
        a += 1;
    }
    proof {
        if a == n {
            assert(s@.skip(a as int) =~= Seq::<char>::empty());
        }
        assert(trim_start_spec(s@) == s@.skip(a as int));
        assert(s@.subrange(a as int, n as int) =~= s@.skip(a as int));
    }
    let mut b: usize = n;
    while b > a && is_space_char(s.get_char(b - 1))
        invariant
            n == s@.len(),
            a <= b <= n,
            trim_start_spec(s@) == s@.skip(a as int),
            trim_end_spec(s@.skip(a as int)) == trim_end_spec(s@.subrange(a as int, b as int)),
        decreases b - a,
    {
        proof {
            assert(s@.subrange(a as int, b as int).drop_last() =~= s@.subrange(
                a as int,
                b as int - 1,
            ));
        }
        b -= 1;
    }
    proof {
        if b == a {
            assert(s@.subrange(a as int, b as int) =~= Seq::<char>::empty());
        }
        assert(trim_end_spec(s@.subrange(a as int, b as int)) == s@.subrange(a as int, b as int));
    }
    let r = s.substring_char(a, b);
    String::from_str(r)
}

} // verus!
