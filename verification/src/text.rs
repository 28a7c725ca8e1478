//! Verified text helpers: whitespace trimming, removal of every occurrence
//! of a pattern, and decimal formatting of identifiers.

use vstd::prelude::*;
use vstd::string::StrSliceExecFns;
use vstd::string::StringExecFns;

verus! {

/// What `char::is_whitespace` returns: the Unicode `White_Space` property
/// of the character. The result depends on the character alone.
pub uninterp spec fn is_whitespace(c: char) -> bool;

/// Relies on `char::is_whitespace` from std: a pure character classifier.
pub assume_specification[ std::primitive::char::is_whitespace ](c: char) -> (r: bool)
    ensures
        r == is_whitespace(c),
;

/// `s` with every leading whitespace character removed.
pub open spec fn ltrimmed(s: Seq<char>) -> Seq<char>
    decreases s.len(),
{
    if s.len() > 0 && is_whitespace(s[0]) {
        ltrimmed(s.skip(1))
    } else {
        s
    }
}

/// `s` with every trailing whitespace character removed.
pub open spec fn rtrimmed(s: Seq<char>) -> Seq<char>
    decreases s.len(),
{
    if s.len() > 0 && is_whitespace(s[s.len() - 1]) {
        rtrimmed(s.drop_last())
    } else {
        s
    }
}

/// `s` with leading and trailing whitespace removed, as `str::trim` yields it.
pub open spec fn trimmed(s: Seq<char>) -> Seq<char> {
    rtrimmed(ltrimmed(s))
}

proof fn lemma_ltrimmed_is_suffix(s: Seq<char>, k: int)
    requires
        0 <= k <= s.len(),
        forall|j: int| 0 <= j < k ==> is_whitespace(s[j]),
        k == s.len() || !is_whitespace(s[k]),
    ensures
        ltrimmed(s) == s.skip(k),
    decreases k,
{
    if k == 0 {
        assert(s.skip(0) =~= s);
    } else {
        let t = s.skip(1);
        assert(forall|j: int| 0 <= j < k - 1 ==> is_whitespace(#[trigger] t[j]));
        assert(k - 1 == t.len() || !is_whitespace(t[k - 1]));
        lemma_ltrimmed_is_suffix(t, k - 1);
        assert(t.skip(k - 1) =~= s.skip(k));
    }
}

proof fn lemma_rtrimmed_is_prefix(s: Seq<char>, k: int)
    requires
        0 <= k <= s.len(),
        forall|j: int| k <= j < s.len() ==> is_whitespace(s[j]),
        k == 0 || !is_whitespace(s[k - 1]),
    ensures
        rtrimmed(s) == s.take(k),
    decreases s.len(),
{
    if s.len() > 0 && is_whitespace(s[s.len() - 1]) {
        let t = s.drop_last();
        assert(k < s.len());
        assert(forall|j: int| k <= j < t.len() ==> is_whitespace(#[trigger] t[j]));
        lemma_rtrimmed_is_prefix(t, k);
        assert(t.take(k) =~= s.take(k));
    } else {
        assert(k == s.len());
        assert(s.take(k) =~= s);
    }
}

/// Removes leading and trailing whitespace, like `str::trim`.
pub fn trim_text(s: &str) -> (r: String)
    ensures
        r@ == trimmed(s@),
{
    let n: usize = s.unicode_len();
    let mut start: usize = 0;
    while start < n && s.get_char(start).is_whitespace()
        invariant
            0 <= start <= n,
            n == s@.len(),
            forall|j: int| 0 <= j < start ==> is_whitespace(s@[j]),
        decreases n - start,
    {
        start = start + 1;
    }
    let mut end: usize = n;
    while end > start && s.get_char(end - 1).is_whitespace()
        invariant
            start <= end <= n,
            n == s@.len(),
            forall|j: int| end <= j < n ==> is_whitespace(s@[j]),
        decreases end,
    {
        end = end - 1;
    }
    let r = s.substring_char(start, end).to_owned();
    proof {
        lemma_ltrimmed_is_suffix(s@, start as int);
        let t = s@.skip(start as int);
        let e = end - start;
        assert(forall|j: int| e <= j < t.len() ==> is_whitespace(#[trigger] t[j]));
        assert(e == 0 || !is_whitespace(t[e - 1]));
        lemma_rtrimmed_is_prefix(t, e as int);
        assert(t.take(e as int) =~= s@.subrange(start as int, end as int));
    }
    r
}

/// `s` with every occurrence of `pat` removed, scanning left to right and
/// never re-examining the characters of a removed occurrence, exactly as
/// `str::replace(pat, "")` does. An empty pattern removes nothing.
pub open spec fn remove_all(s: Seq<char>, pat: Seq<char>) -> Seq<char>
    decreases s.len(),
{
    if pat.len() == 0 || s.len() < pat.len() {
        s
    } else if s.subrange(0, pat.len() as int) == pat {
        remove_all(s.skip(pat.len() as int), pat)
    } else {
        seq![s[0]] + remove_all(s.skip(1), pat)
    }
}

/// Whether `pat` occurs in `s` starting at position `i`.
pub(crate) fn matches_at(s: &str, pat: &str, i: usize) -> (b: bool)
    requires
        i + pat@.len() <= s@.len(),
        s@.len() <= usize::MAX,
    ensures
        b == (s@.subrange(i as int, i as int + pat@.len() as int) == pat@),
{
    let p: usize = pat.unicode_len();
    let mut j: usize = 0;
    while j < p
        invariant
            0 <= j <= p,
            p == pat@.len(),
            i + p <= s@.len(),
            s@.len() <= usize::MAX,
            forall|k: int| 0 <= k < j ==> s@[i + k] == pat@[k],
        decreases p - j,
    {
        if s.get_char(i + j) != pat.get_char(j) {
            proof {
                assert(s@.subrange(i as int, i as int + p as int)[j as int] == s@[i + j]);
            }
            return false;
        }
        j = j + 1;
    }
    proof {
        assert(s@.subrange(i as int, i as int + p as int) =~= pat@);
    }
    true
}

/// Removes every occurrence of `pat` from `s`, like `str::replace(pat, "")`.
pub fn remove_occurrences(s: &str, pat: &str) -> (r: String)
    ensures
        r@ == remove_all(s@, pat@),
{
    let n: usize = s.unicode_len();
    let p: usize = pat.unicode_len();
    if p == 0 {
        return s.to_owned();
    }
    let mut out: String = String::new();
    let mut i: usize = 0;
    proof {
        assert(s@.skip(0) =~= s@);
        assert(out@ + remove_all(s@, pat@) =~= remove_all(s@, pat@));
    }
    while i < n
        invariant
            0 <= i <= n,
            n == s@.len(),
            p == pat@.len(),
            p >= 1,
            remove_all(s@, pat@) == out@ + remove_all(s@.skip(i as int), pat@),
        decreases n - i,
    {
        let ghost rest = s@.skip(i as int);
        if p <= n - i && matches_at(s, pat, i) {
            proof {
                assert(rest.subrange(0, p as int) =~= s@.subrange(i as int, i as int + p as int));
                assert(rest.skip(p as int) =~= s@.skip(i + p));
            }
            i = i + p;
        } else {
            let ghost out0 = out@;
            let c = s.substring_char(i, i + 1);
            out.append(c);
            proof {
                if n - i < p {
                    assert(remove_all(rest, pat@) == rest);
                    assert(remove_all(s@.skip(i + 1), pat@) == s@.skip(i + 1));
                } else {
                    assert(rest.subrange(0, p as int) =~= s@.subrange(i as int, i as int + p as int));
                }
                assert(rest.skip(1) =~= s@.skip(i + 1));
                assert(seq![rest[0]] =~= s@.subrange(i as int, i + 1));
                assert(rest =~= seq![rest[0]] + rest.skip(1));
                assert(out0 + (seq![rest[0]] + remove_all(s@.skip(i + 1), pat@)) =~= out@
                    + remove_all(s@.skip(i + 1), pat@));
            }
            i = i + 1;
        }
    }
    proof {
        assert(s@.skip(n as int) =~= Seq::<char>::empty());
        assert(remove_all(s@.skip(n as int), pat@) =~= Seq::<char>::empty());
        assert(out@ + Seq::<char>::empty() =~= out@);
    }
    out
}

/// The character for one decimal digit.
pub open spec fn digit_char(d: int) -> char {
    if d == 0 {
        '0'
    } else if d == 1 {
        '1'
    } else if d == 2 {
        '2'
    } else if d == 3 {
        '3'
    } else if d == 4 {
        '4'
    } else if d == 5 {
        '5'
    } else if d == 6 {
        '6'
    } else if d == 7 {
        '7'
    } else if d == 8 {
        '8'
    } else {
        '9'
    }
}

/// The decimal digits of `n`, most significant first, without a sign and
/// without leading zeroes (a single `'0'` for zero).
pub open spec fn decimal_digits(n: nat) -> Seq<char>
    decreases n,
{
    if n < 10 {
        seq![digit_char(n as int)]
    } else {
        decimal_digits(n / 10) + seq![digit_char((n % 10) as int)]
    }
}

fn digit_str(d: u64) -> (r: &'static str)
    requires
        d < 10,
    ensures
        r@ == seq![digit_char(d as int)],
{
    let r: &'static str = if d == 0 {
        "0"
    } else if d == 1 {
        "1"
    } else if d == 2 {
        "2"
    } else if d == 3 {
        "3"
    } else if d == 4 {
        "4"
    } else if d == 5 {
        "5"
    } else if d == 6 {
        "6"
    } else if d == 7 {
        "7"
    } else if d == 8 {
        "8"
    } else {
        "9"
    };
    proof {
        reveal_strlit("0");
        reveal_strlit("1");
        reveal_strlit("2");
        reveal_strlit("3");
        reveal_strlit("4");
        reveal_strlit("5");
        reveal_strlit("6");
        reveal_strlit("7");
        reveal_strlit("8");
        reveal_strlit("9");
        assert(r@ =~= seq![digit_char(d as int)]);
    }
    r
}

/// Formats `n` in decimal, as `u64::to_string` would.
pub fn u64_to_string(n: u64) -> (r: String)
    ensures
        r@ == decimal_digits(n as nat),
    decreases n,
{
    if n < 10 {
        digit_str(n).to_owned()
    } else {
        let mut r = u64_to_string(n / 10);
        r.append(digit_str(n % 10));
        r
    }
}

} // verus!
