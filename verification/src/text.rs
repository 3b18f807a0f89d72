//! Literal text substitution for notification templates.
//!
//! A template is an ordinary string; rendering replaces every
//! non-overlapping, leftmost-first occurrence of a placeholder such as
//! `$ssid` by a caller-supplied value. Text that matches no placeholder
//! is kept verbatim, so rendering never fails on malformed input.

use vstd::prelude::*;

verus! {

/// The result of replacing, left to right, every non-overlapping
/// occurrence of `pat` in `s` by `to`. A pattern longer than the
/// remaining text never matches; the empty pattern replaces nothing.
pub open spec fn spec_replace(s: Seq<char>, pat: Seq<char>, to: Seq<char>) -> Seq<char>
    decreases s.len(),
{
    if pat.len() == 0 || s.len() < pat.len() {
        s
    } else if s.subrange(0, pat.len() as int) == pat {
        to + spec_replace(s.skip(pat.len() as int), pat, to)
    } else {
        seq![s[0]] + spec_replace(s.skip(1), pat, to)
    }
}

/// Replacement leaves a text without the pattern's first character
/// unchanged: in particular a template with no `$` at all renders
/// verbatim under every `$`-placeholder.
pub proof fn lemma_replace_identity(s: Seq<char>, pat: Seq<char>, to: Seq<char>)
    requires
        pat.len() > 0,
        forall|i: int| 0 <= i < s.len() ==> s[i] != pat[0],
    ensures
        spec_replace(s, pat, to) == s,
    decreases s.len(),
{
    if s.len() == 0 {
        assert(spec_replace(s, pat, to) =~= s);
    } else if s.len() < pat.len() {
    } else {
        assert(s.subrange(0, pat.len() as int) != pat) by {
            assert(s.subrange(0, pat.len() as int)[0] == s[0]);
        }
        lemma_replace_identity(s.skip(1), pat, to);
        assert(spec_replace(s, pat, to) =~= s);
    }
}

/// A text that begins with the pattern has that occurrence substituted,
/// and substitution continues in the rest: no occurrence is skipped.
pub proof fn lemma_replace_at_match(s: Seq<char>, pat: Seq<char>, to: Seq<char>)
    requires
        pat.len() > 0,
        pat.len() <= s.len(),
        s.subrange(0, pat.len() as int) == pat,
    ensures
        spec_replace(s, pat, to) == to + spec_replace(s.skip(pat.len() as int), pat, to),
{
}

/// Replacement passes text without the pattern's first character
/// through unchanged and keeps substituting beyond it: an occurrence
/// after a clean prefix is never missed.
pub proof fn lemma_replace_skip_clean_prefix(
    a: Seq<char>,
    rest: Seq<char>,
    pat: Seq<char>,
    to: Seq<char>,
)
    requires
        pat.len() > 0,
        forall|i: int| 0 <= i < a.len() ==> a[i] != pat[0],
    ensures
        spec_replace(a + rest, pat, to) == a + spec_replace(rest, pat, to),
    decreases a.len(),
{
    let s = a + rest;
    if a.len() == 0 {
        assert(s =~= rest);
        assert(a + spec_replace(rest, pat, to) =~= spec_replace(rest, pat, to));
    } else if s.len() < pat.len() {
        assert(spec_replace(rest, pat, to) == rest);
        assert(a + rest =~= s);
    } else {
        assert(s.subrange(0, pat.len() as int) != pat) by {
            assert(s.subrange(0, pat.len() as int)[0] == s[0]);
            assert(s[0] == a[0]);
        }
        lemma_replace_skip_clean_prefix(a.skip(1), rest, pat, to);
        assert(s.skip(1) =~= a.skip(1) + rest);
        assert(seq![s[0]] + (a.skip(1) + spec_replace(rest, pat, to)) =~= a + spec_replace(
            rest,
            pat,
            to,
        ));
    }
}

/// A text equal to the pattern itself is replaced entirely.
pub proof fn lemma_replace_whole(pat: Seq<char>, to: Seq<char>)
    requires
        pat.len() > 0,
    ensures
        spec_replace(pat, pat, to) == to,
{
    assert(pat.subrange(0, pat.len() as int) =~= pat);
    assert(pat.skip(pat.len() as int) =~= Seq::<char>::empty());
    assert(spec_replace(Seq::<char>::empty(), pat, to) =~= Seq::<char>::empty());
    assert(to + Seq::<char>::empty() =~= to);
}

/// Whether `pat` occurs in `s` starting at position `i`.
fn matches_at(s: &str, pat: &str, i: usize, n: usize, k: usize) -> (r: bool)
    requires
        n == s@.len(),
        k == pat@.len(),
        i + k <= n,
    ensures
        r == (s@.subrange(i as int, i + k) == pat@),
{
    let mut j: usize = 0;
    while j < k
        invariant
            n == s@.len(),
            k == pat@.len(),
            i + k <= n,
            j <= k,
            forall|m: int| 0 <= m < j ==> s@[i + m] == pat@[m],
        decreases k - j,
    {
        if s.get_char(i + j) != pat.get_char(j) {
            assert(s@.subrange(i as int, i + k)[j as int] == s@[i + j]);
            return false;
        }
        j = j + 1;
    }
    assert(s@.subrange(i as int, i + k) =~= pat@);
    true
}

/// Replaces every leftmost, non-overlapping occurrence of `pat` in `s`
/// by `to`, as `spec_replace` states.
pub fn replace_all(s: &str, pat: &str, to: &str) -> (r: String)
    requires
        pat@.len() > 0,
    ensures
        r@ == spec_replace(s@, pat@, to@),
{
    let n: usize = s.unicode_len();
    let k: usize = pat.unicode_len();
    let mut r = String::new();
    let mut i: usize = 0;
    proof {
        assert(s@.skip(0) =~= s@);
    }
    while i < n
        invariant
            n == s@.len(),
            k == pat@.len(),
            k > 0,
            i <= n,
            spec_replace(s@, pat@, to@) == r@ + spec_replace(s@.skip(i as int), pat@, to@),
        decreases n - i,
    {
        let ghost tail = s@.skip(i as int);
        if k <= n - i && matches_at(s, pat, i, n, k) {
            proof {
                assert(tail.subrange(0, k as int) =~= s@.subrange(i as int, i + k));
                lemma_replace_at_match(tail, pat@, to@);
                assert(tail.skip(k as int) =~= s@.skip(i + k));
            }
            r.append(to);
            i = i + k;
        } else {
            proof {
                if k <= tail.len() {
                    assert(tail.subrange(0, k as int) =~= s@.subrange(i as int, i + k));
                    assert(tail.subrange(0, k as int) != pat@);
                }
                assert(spec_replace(tail, pat@, to@) == seq![tail[0]]
                    + spec_replace(tail.skip(1), pat@, to@)) by {
                    if tail.len() < k {
                        assert(spec_replace(tail.skip(1), pat@, to@) =~= tail.skip(1));
                        assert(seq![tail[0]] + tail.skip(1) =~= tail);
                    }
                }
                assert(tail.skip(1) =~= s@.skip(i + 1));
                assert(s@.subrange(i as int, i + 1) =~= seq![s@[i as int]]);
            }
            let c = s.substring_char(i, i + 1);
            r.append(c);
            i = i + 1;
        }
    }
    proof {
        assert(s@.skip(n as int) =~= Seq::<char>::empty());
        assert(r@ + Seq::<char>::empty() =~= r@);
    }
    r
}

/// Whether two texts hold the same characters.
pub fn str_eq(a: &str, b: &str) -> (r: bool)
    ensures
        r == (a@ == b@),
{
    let left = String::from_str(a);
    let right = String::from_str(b);
    left.eq(&right)
}

/// The decimal digit character for a value below ten.
pub open spec fn spec_digit_char(d: int) -> char {
    if d == 0 {
        '0'
    } else if d == 1 {
        '1'
    } else if d == 2 {
        '2'
    } else if d == 3 {
        '3'
    } else if d == 4 {
        '4'
    } else if d == 5 {
        '5'
    } else if d == 6 {
        '6'
    } else if d == 7 {
        '7'
    } else if d == 8 {
        '8'
    } else {
        '9'
    }
}

/// The decimal rendering of `n`: most significant digit first, no
/// leading zeros.
pub open spec fn spec_u8_string(n: u8) -> Seq<char> {
    if n >= 100 {
        seq![
            spec_digit_char(n as int / 100),
            spec_digit_char((n as int / 10) % 10),
            spec_digit_char(n as int % 10),
        ]
    } else if n >= 10 {
        seq![spec_digit_char(n as int / 10), spec_digit_char(n as int % 10)]
    } else {
        seq![spec_digit_char(n as int)]
    }
}

fn digit_str(d: u8) -> (r: &'static str)
    requires
        d < 10,
    ensures
        r@ == seq![spec_digit_char(d as int)],
{
    if d == 0 {
        proof {
            reveal_strlit("0");
            assert("0"@ =~= seq![spec_digit_char(0)]);
        }
        "0"
    } else if d == 1 {
        proof {
            reveal_strlit("1");
            assert("1"@ =~= seq![spec_digit_char(1)]);
        }
        "1"
    } else if d == 2 {
        proof {
            reveal_strlit("2");
            assert("2"@ =~= seq![spec_digit_char(2)]);
        }
        "2"
    } else if d == 3 {
        proof {
            reveal_strlit("3");
            assert("3"@ =~= seq![spec_digit_char(3)]);
        }
        "3"
    } else if d == 4 {
        proof {
            reveal_strlit("4");
            assert("4"@ =~= seq![spec_digit_char(4)]);
        }
        "4"
    } else if d == 5 {
        proof {
            reveal_strlit("5");
            assert("5"@ =~= seq![spec_digit_char(5)]);
        }
        "5"
    } else if d == 6 {
        proof {
            reveal_strlit("6");
            assert("6"@ =~= seq![spec_digit_char(6)]);
        }
        "6"
    } else if d == 7 {
        proof {
            reveal_strlit("7");
            assert("7"@ =~= seq![spec_digit_char(7)]);
        }
        "7"
    } else if d == 8 {
        proof {
            reveal_strlit("8");
            assert("8"@ =~= seq![spec_digit_char(8)]);
        }
        "8"
    } else {
        proof {
            reveal_strlit("9");
            assert("9"@ =~= seq![spec_digit_char(9)]);
        }
        "9"
    }
}

/// Renders `n` in decimal, as `u8::to_string` would.
pub fn u8_to_string(n: u8) -> (r: String)
    ensures
        r@ == spec_u8_string(n),
{
    let mut r = String::new();
    if n >= 100 {
        r.append(digit_str(n / 100));
        r.append(digit_str((n / 10) % 10));
        r.append(digit_str(n % 10));
    } else if n >= 10 {
        r.append(digit_str(n / 10));
        r.append(digit_str(n % 10));
    } else {
        r.append(digit_str(n));
    }
    proof {
        assert(r@ =~= spec_u8_string(n));
    }
    r
}

} // verus!
