//! Verified character-level string operations: substring matching, suffix
//! classification, non-overlapping pattern replacement, and decimal
//! rendering. These back the artifact collector, the template rewriting of
//! the legacy gateway, and paste identifiers.

use vstd::prelude::*;
use vstd::string::*;

verus! {

/// Relies on String::push: appends the given char to the end of the string.
#[verifier::external_body]
pub(crate) fn push_char(s: &mut String, c: char)
    ensures
        final(s)@ == old(s)@.push(c),
{
    s.push(c);
}

/// `pat` occurs in `s` at position `i`.
pub open spec fn spec_matches_at(s: Seq<char>, pat: Seq<char>, i: int) -> bool {
    0 <= i && i + pat.len() <= s.len() && s.subrange(i, i + pat.len()) == pat
}

/// `s` ends with `pat`.
pub open spec fn spec_ends_with(s: Seq<char>, pat: Seq<char>) -> bool {
    pat.len() <= s.len() && spec_matches_at(s, pat, s.len() - pat.len())
}

/// Whether `pat` occurs in `s` at position `i`.
pub fn matches_at(s: &str, pat: &str, i: usize) -> (r: bool)
    requires
        i <= s@.len(),
    ensures
        r == spec_matches_at(s@, pat@, i as int),
{
    let s_len = s.unicode_len();
    let pat_len = pat.unicode_len();
    if pat_len > s_len - i {
        assert(!spec_matches_at(s@, pat@, i as int));
        return false;
    }
    let mut j: usize = 0;
    while j < pat_len
        invariant
            0 <= j <= pat_len,
            i + pat_len <= s_len,
            s_len == s@.len(),
            pat_len == pat@.len(),
            forall|k: int| 0 <= k < j ==> s@[i + k] == pat@[k],
        decreases pat_len - j,
    {
        if s.get_char(i + j) != pat.get_char(j) {
            assert(s@.subrange(i as int, i + pat@.len())[j as int] != pat@[j as int]);
            return false;
        }
        j = j + 1;
    }
    assert(s@.subrange(i as int, i + pat@.len()) =~= pat@);
    true
}

/// Whether `s` ends with `pat`; classifies output-directory entries by
/// filename suffix.
pub fn ends_with(s: &str, pat: &str) -> (r: bool)
    ensures
        r == spec_ends_with(s@, pat@),
{
    let s_len = s.unicode_len();
    let pat_len = pat.unicode_len();
    if pat_len > s_len {
        return false;
    }
    matches_at(s, pat, s_len - pat_len)
}

/// The result of replacing every non-overlapping occurrence of `pat` in
/// `s` with `rep`, scanning left to right.
pub open spec fn spec_replace(s: Seq<char>, pat: Seq<char>, rep: Seq<char>) -> Seq<char>
    recommends
        pat.len() > 0,
    decreases s.len(),
{
    if pat.len() == 0 || s.len() < pat.len() {
        s
    } else if s.subrange(0, pat.len() as int) == pat {
        rep + spec_replace(s.skip(pat.len() as int), pat, rep)
    } else {
        seq![s[0]] + spec_replace(s.skip(1), pat, rep)
    }
}

/// Replaces every non-overlapping occurrence of `pat` in `s` with `rep`,
/// scanning left to right.
pub fn replace_all(s: &str, pat: &str, rep: &str) -> (r: String)
    requires
        pat@.len() > 0,
    ensures
        r@ == spec_replace(s@, pat@, rep@),
{
    let s_len = s.unicode_len();
    let pat_len = pat.unicode_len();
    let mut out = String::new();
    let mut i: usize = 0;
    proof {
        assert(s@.skip(0) =~= s@);
        assert(out@ + spec_replace(s@, pat@, rep@) =~= spec_replace(s@, pat@, rep@));
    }
    while i < s_len
        invariant
            0 <= i <= s_len,
            s_len == s@.len(),
            pat_len == pat@.len(),
            pat@.len() > 0,
            out@ + spec_replace(s@.skip(i as int), pat@, rep@) == spec_replace(s@, pat@, rep@),
        decreases s_len - i,
    {
        let ghost rest = s@.skip(i as int);
        if matches_at(s, pat, i) {
            proof {
                assert(rest.subrange(0, pat@.len() as int) =~= s@.subrange(
                    i as int,
                    i + pat@.len(),
                ));
                assert(rest.skip(pat@.len() as int) =~= s@.skip(i + pat@.len()));
            }
            out.append(rep);
            i = i + pat_len;
        } else {
            proof {
                if rest.len() >= pat@.len() {
                    assert(rest.subrange(0, pat@.len() as int) =~= s@.subrange(
                        i as int,
                        i + pat@.len(),
                    ));
                    assert(rest.subrange(0, pat@.len() as int) != pat@);
                }
                assert(rest =~= seq![s@[i as int]] + s@.skip(i + 1));
                assert(rest.skip(1) =~= s@.skip(i + 1));
                if rest.len() < pat@.len() {
                    assert(spec_replace(rest, pat@, rep@) == rest);
                    assert(spec_replace(s@.skip(i + 1), pat@, rep@) == s@.skip(i + 1)) by {
                        assert(s@.skip(i + 1).len() < pat@.len());
                    }
                }
            }
            let c = s.get_char(i);
            push_char(&mut out, c);
            i = i + 1;
        }
        assert(out@ + spec_replace(s@.skip(i as int), pat@, rep@) =~= spec_replace(
            s@,
            pat@,
            rep@,
        ));
    }
    assert(s@.skip(i as int) =~= Seq::<char>::empty());
    assert(out@ =~= spec_replace(s@, pat@, rep@));
    out
}

/// The decimal digits of `n`, most significant first.
pub open spec fn spec_decimal(n: int) -> Seq<char>
    recommends
        0 <= n,
    decreases n,
{
    if n < 10 {
        seq![spec_digit_char(n)]
    } else {
        spec_decimal(n / 10) + seq![spec_digit_char(n % 10)]
    }
}

/// The character for one decimal digit.
pub open spec fn spec_digit_char(d: int) -> char
    recommends
        0 <= d < 10,
{
    if d == 0 {
        '0'
    } else if d == 1 {
        '1'
    } else if d == 2 {
        '2'
    } else if d == 3 {
        '3'
    } else if d == 4 {
        '4'
    } else if d == 5 {
        '5'
    } else if d == 6 {
        '6'
    } else if d == 7 {
        '7'
    } else if d == 8 {
        '8'
    } else {
        '9'
    }
}

fn digit_char(d: u32) -> (c: char)
    requires
        d < 10,
    ensures
        c == spec_digit_char(d as int),
{
    match d {
        0 => '0',
        1 => '1',
        2 => '2',
        3 => '3',
        4 => '4',
        5 => '5',
        6 => '6',
        7 => '7',
        8 => '8',
        _ => '9',
    }
}

/// Appends the decimal rendering of `n` to `out`.
pub fn append_decimal_u32(out: &mut String, n: u32)
    ensures
        final(out)@ == old(out)@ + spec_decimal(n as int),
    decreases n,
{
    if n < 10 {
        let c = digit_char(n);
        push_char(out, c);
    } else {
        append_decimal_u32(out, n / 10);
        let c = digit_char(n % 10);
        push_char(out, c);
        assert(out@ =~= old(out)@ + spec_decimal(n as int));
    }
}

} // verus!
