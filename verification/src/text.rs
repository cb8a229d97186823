//! Verified string utilities: equality, substring search, whitespace
//! splitting, trimming, and occurrence removal. Everything is specified
//! over `Seq<char>` views.

use vstd::prelude::*;
use vstd::string::StrSliceExecFns;

verus! {

/// The characters the library treats as whitespace separators.
pub open spec fn is_space_char(c: char) -> bool {
    c == ' ' || c == '\t' || c == '\n' || c == '\r'
}

/// Whether `c` counts as whitespace.
pub fn is_space(c: char) -> (r: bool)
    ensures
        r == is_space_char(c),
{
    c == ' ' || c == '\t' || c == '\n' || c == '\r'
}

/// Character-wise string equality.
pub fn str_eq(a: &str, b: &str) -> (r: bool)
    ensures
        r == (a@ == b@),
{
    let na = a.unicode_len();
    let nb = b.unicode_len();
    if na != nb {
        return false;
    }
    let mut i: usize = 0;
    while i < na
        invariant
            na == a@.len(),
            na == b@.len(),
            i <= na,
            forall|j: int| 0 <= j < i ==> a@[j] == b@[j],
        decreases na - i,
    {
        if a.get_char(i) != b.get_char(i) {
            return false;
        }
        i += 1;
    }
    proof {
        assert(a@ =~= b@);
    }
    true
}

/// `pat` occurs in `s` starting at position `i`.
pub open spec fn matches_at(s: Seq<char>, pat: Seq<char>, i: int) -> bool {
    0 <= i && i + pat.len() <= s.len() && s.subrange(i, i + pat.len() as int) == pat
}

/// `pat` occurs somewhere in `s`.
pub open spec fn contains_seq(s: Seq<char>, pat: Seq<char>) -> bool {
    exists|i: int| matches_at(s, pat, i)
}

/// Position of the first occurrence of `pat` in `s`, if any.
pub fn str_find(s: &str, pat: &str) -> (r: Option<usize>)
    ensures
        match r {
            Some(i) => matches_at(s@, pat@, i as int) && forall|j: int|
                0 <= j < i ==> !matches_at(s@, pat@, j),
            None => !contains_seq(s@, pat@),
        },
{
    let n = s.unicode_len();
    let m = pat.unicode_len();
    if m > n {
        proof {
            assert(forall|j: int| !matches_at(s@, pat@, j));
        }
        return None;
    }
    if m == 0 {
        proof {
            assert(s@.subrange(0, 0) =~= pat@);
        }
        return Some(0);
    }
    let mut i: usize = 0;
    while i <= n - m
        invariant
            n == s@.len(),
            m == pat@.len(),
            1 <= m <= n,
            i <= n - m + 1,
            forall|j: int| 0 <= j < i ==> !matches_at(s@, pat@, j),
        decreases n - i,
    {
        let sub = s.substring_char(i, i + m);
        if str_eq(sub, pat) {
            proof {
                assert(matches_at(s@, pat@, i as int));
            }
            return Some(i);
        }
        i += 1;
    }
    proof {
        assert(forall|j: int| matches_at(s@, pat@, j) ==> 0 <= j && j + m <= n);
        assert(forall|j: int| !matches_at(s@, pat@, j));
    }
    None
}

/// Whether `pat` occurs in `s`.
pub fn str_contains(s: &str, pat: &str) -> (r: bool)
    ensures
        r == contains_seq(s@, pat@),
{
    str_find(s, pat).is_some()
}

/// Position of the first occurrence of `pat` in `s`, or -1 when there
/// is none.
pub open spec fn spec_find(s: Seq<char>, pat: Seq<char>) -> int
    decreases s.len(),
{
    if s.len() < pat.len() {
        -1
    } else if s.subrange(0, pat.len() as int) == pat {
        0
    } else if s.len() == 0 {
        -1
    } else {
        let r = spec_find(s.skip(1), pat);
        if r < 0 {
            -1
        } else {
            r + 1
        }
    }
}

/// The first occurrence, with nothing earlier, is what `spec_find`
/// names.
pub proof fn lemma_find_first(s: Seq<char>, pat: Seq<char>, i: int)
    requires
        matches_at(s, pat, i),
        forall|j: int| 0 <= j < i ==> !matches_at(s, pat, j),
    ensures
        spec_find(s, pat) == i,
    decreases i,
{
    if i == 0 {
        assert(s.subrange(0, pat.len() as int) == pat);
    } else {
        assert(!matches_at(s, pat, 0));
        assert(s.subrange(0, pat.len() as int) != pat);
        let t = s.skip(1);
        assert(t.subrange(i - 1, i - 1 + pat.len() as int) =~= s.subrange(i, i + pat.len() as int));
        assert(matches_at(t, pat, i - 1));
        assert forall|j: int| 0 <= j < i - 1 implies !matches_at(t, pat, j) by {
            if matches_at(t, pat, j) {
                assert(s.subrange(j + 1, j + 1 + pat.len() as int) =~= t.subrange(
                    j,
                    j + pat.len() as int,
                ));
                assert(matches_at(s, pat, j + 1));
            }
        }
        lemma_find_first(t, pat, i - 1);
    }
}

/// Where `pat` occurs nowhere, `spec_find` says so.
pub proof fn lemma_find_absent(s: Seq<char>, pat: Seq<char>)
    requires
        !contains_seq(s, pat),
    ensures
        spec_find(s, pat) == -1,
    decreases s.len(),
{
    if pat.len() == 0 {
        assert(s.subrange(0, 0) =~= pat);
        assert(matches_at(s, pat, 0));
    } else if s.len() < pat.len() {
    } else {
        assert(!matches_at(s, pat, 0));
        assert(s.subrange(0, pat.len() as int) != pat);
        assert(s.len() > 0);
        let t = s.skip(1);
        assert(!contains_seq(t, pat)) by {
            if contains_seq(t, pat) {
                let j = choose|j: int| matches_at(t, pat, j);
                assert(s.subrange(j + 1, j + 1 + pat.len() as int) =~= t.subrange(
                    j,
                    j + pat.len() as int,
                ));
                assert(matches_at(s, pat, j + 1));
            }
        }
        lemma_find_absent(t, pat);
    }
}

/// The views of a sequence of strings.
pub open spec fn views(v: Seq<String>) -> Seq<Seq<char>> {
    Seq::new(v.len(), |i: int| v[i]@)
}

/// Appends a copy of every element of `src` to `dst`, in order.
pub fn push_all(dst: &mut Vec<String>, src: &Vec<String>)
    ensures
        final(dst)@ == old(dst)@ + src@,
{
    let ghost orig = dst@;
    let n = src.len();
    let mut i: usize = 0;
    while i < n
        invariant
            n == src@.len(),
            i <= n,
            dst@ == orig + src@.take(i as int),
        decreases n - i,
    {
        dst.push(src[i].clone());
        proof {
            assert((orig + src@.take(i as int)).push(src@[i as int]) =~= orig + src@.take(
                i as int + 1,
            ));
        }
        i += 1;
    }
    proof {
        assert(src@.take(n as int) =~= src@);
    }
}

/// `s` without leading whitespace.
pub open spec fn spec_trim_start(s: Seq<char>) -> Seq<char>
    decreases s.len(),
{
    if s.len() > 0 && is_space_char(s[0]) {
        spec_trim_start(s.skip(1))
    } else {
        s
    }
}

/// `s` without trailing whitespace.
pub open spec fn spec_trim_end(s: Seq<char>) -> Seq<char>
    decreases s.len(),
{
    if s.len() > 0 && is_space_char(s[s.len() - 1]) {
        spec_trim_end(s.take(s.len() - 1))
    } else {
        s
    }
}

/// `s` without leading or trailing whitespace.
pub open spec fn spec_trim(s: Seq<char>) -> Seq<char> {
    spec_trim_end(spec_trim_start(s))
}

/// Strips leading and trailing whitespace.
pub fn str_trim<'a>(s: &'a str) -> (r: &'a str)
    ensures
        r@ == spec_trim(s@),
{
    let n = s.unicode_len();
    let mut a: usize = 0;
    proof {
        assert(s@.skip(0) =~= s@);
    }
    while a < n && is_space(s.get_char(a))
        invariant
            n == s@.len(),
            a <= n,
            spec_trim_start(s@) == spec_trim_start(s@.skip(a as int)),
        decreases n - a,
    {
        proof {
            assert(s@.skip(a as int)[0] == s@[a as int]);
            assert(s@.skip(a as int).skip(1) =~= s@.skip(a as int + 1));
        }
        a += 1;
    }
    if a == n {
        proof {
            assert(s@.skip(a as int) =~= Seq::<char>::empty());
            assert(s@.subrange(a as int, a as int) =~= spec_trim(s@));
        }
        return s.substring_char(a, a);
    }
    proof {
        // the first remaining character is not whitespace, so trimming the
        // start of the suffix leaves it whole
        assert(s@.skip(a as int)[0] == s@[a as int]);
        assert(spec_trim_start(s@) == s@.skip(a as int));
    }
    let mut b: usize = n;
    while b > a + 1 && is_space(s.get_char(b - 1))
        invariant
            n == s@.len(),
            a < b <= n,
            !is_space_char(s@[a as int]),
            spec_trim_end(s@.skip(a as int)) == spec_trim_end(s@.subrange(a as int, b as int)),
        decreases b,
    {
        proof {
            let t = s@.subrange(a as int, b as int);
            assert(t[t.len() - 1] == s@[b as int - 1]);
            assert(t.take(t.len() - 1) =~= s@.subrange(a as int, b as int - 1));
        }
        b -= 1;
    }
    proof {
        let t = s@.subrange(a as int, b as int);
        assert(t[0] == s@[a as int]);
        if b == a + 1 {
            assert(!is_space_char(t[t.len() - 1]));
        }
        assert(spec_trim_end(t) == t);
        assert(s@.skip(a as int) =~= s@.subrange(a as int, n as int));
    }
    s.substring_char(a, b)
}

/// `s` with every occurrence of `pat` removed, scanning left to right
/// without overlap.
pub open spec fn spec_remove_all(s: Seq<char>, pat: Seq<char>) -> Seq<char>
    decreases s.len(),
{
    if pat.len() > 0 && s.len() >= pat.len() && s.subrange(0, pat.len() as int) == pat {
        spec_remove_all(s.skip(pat.len() as int), pat)
    } else if s.len() == 0 {
        s
    } else {
        seq![s[0]] + spec_remove_all(s.skip(1), pat)
    }
}

/// Removes every occurrence of `pat`, scanning left to right.
pub fn remove_all(s: &str, pat: &str) -> (r: String)
    requires
        pat@.len() > 0,
    ensures
        r@ == spec_remove_all(s@, pat@),
{
    let n = s.unicode_len();
    let m = pat.unicode_len();
    let mut out = String::new();
    let mut i: usize = 0;
    proof {
        assert(s@.skip(0) =~= s@);
        assert(out@ + spec_remove_all(s@, pat@) =~= spec_remove_all(s@, pat@));
    }
    while i < n
        invariant
            n == s@.len(),
            m == pat@.len(),
            m >= 1,
            i <= n,
            spec_remove_all(s@, pat@) == out@ + spec_remove_all(s@.skip(i as int), pat@),
        decreases n - i,
    {
        let is_match = if m <= n - i {
            str_eq(s.substring_char(i, i + m), pat)
        } else {
            false
        };
        proof {
            if i + m <= n {
                assert(s@.skip(i as int).subrange(0, m as int) =~= s@.subrange(
                    i as int,
                    i as int + m as int,
                ));
            }
        }
        if is_match {
            proof {
                assert(s@.skip(i as int).skip(m as int) =~= s@.skip(i as int + m as int));
            }
            i += m;
        } else {
            let c = s.substring_char(i, i + 1);
            proof {
                assert(s@.skip(i as int)[0] == s@[i as int]);
                assert(s@.skip(i as int).skip(1) =~= s@.skip(i as int + 1));
                assert(s@.subrange(i as int, i as int + 1) =~= seq![s@[i as int]]);
            }
            out.append(c);
            proof {
                assert(out@ + spec_remove_all(s@.skip(i as int + 1), pat@) =~= spec_remove_all(
                    s@,
                    pat@,
                ));
            }
            i += 1;
        }
    }
    proof {
        assert(s@.skip(n as int) =~= Seq::<char>::empty());
        assert(out@ =~= spec_remove_all(s@, pat@));
    }
    out
}

/// The whitespace-separated tokens of `s`, in order; empty tokens never
/// appear.
pub open spec fn spec_split_ws(s: Seq<char>) -> Seq<Seq<char>>
    decreases s.len(),
{
    if s.len() == 0 {
        seq![]
    } else if is_space_char(s[0]) {
        spec_split_ws(s.skip(1))
    } else if s.len() == 1 || is_space_char(s[1]) {
        seq![seq![s[0]]] + spec_split_ws(s.skip(1))
    } else {
        let r = spec_split_ws(s.skip(1));
        r.update(0, seq![s[0]] + r[0])
    }
}

proof fn lemma_split_ws_skip_space(s: Seq<char>, i: int)
    requires
        0 <= i < s.len(),
        is_space_char(s[i]),
    ensures
        spec_split_ws(s.skip(i)) == spec_split_ws(s.skip(i + 1)),
{
    assert(s.skip(i)[0] == s[i]);
    assert(s.skip(i).skip(1) =~= s.skip(i + 1));
}

proof fn lemma_split_ws_token(s: Seq<char>, i: int, j: int)
    requires
        0 <= i < j <= s.len(),
        forall|k: int| i <= k < j ==> !is_space_char(s[k]),
        j == s.len() || is_space_char(s[j]),
    ensures
        spec_split_ws(s.skip(i)) == seq![s.subrange(i, j)] + spec_split_ws(s.skip(j)),
    decreases j - i,
{
    let t = s.skip(i);
    assert(t[0] == s[i]);
    if i + 1 == j {
        assert(t.skip(1) =~= s.skip(j));
        assert(seq![t[0]] =~= s.subrange(i, j));
        if j == s.len() {
            assert(t.len() == 1);
        } else {
            assert(t[1] == s[i + 1]);
            assert(is_space_char(t[1]));
        }
        assert(spec_split_ws(t) == seq![seq![t[0]]] + spec_split_ws(t.skip(1)));
        assert(seq![seq![t[0]]] + spec_split_ws(t.skip(1)) =~= seq![s.subrange(i, j)]
            + spec_split_ws(s.skip(j)));
    } else {
        assert(t[1] == s[i + 1]);
        assert(!is_space_char(t[1]));
        lemma_split_ws_token(s, i + 1, j);
        let r = spec_split_ws(s.skip(i + 1));
        assert(t.skip(1) =~= s.skip(i + 1));
        assert(spec_split_ws(t) == r.update(0, seq![t[0]] + r[0]));
        assert(r[0] == s.subrange(i + 1, j));
        assert(seq![s[i]] + s.subrange(i + 1, j) =~= s.subrange(i, j));
        assert(r.update(0, seq![s[i]] + s.subrange(i + 1, j)) =~= seq![s.subrange(i, j)]
            + spec_split_ws(s.skip(j)));
    }
}

/// Position just past the whitespace-free token that starts at `start`.
fn token_end(s: &str, start: usize) -> (j: usize)
    requires
        start < s@.len(),
        !is_space_char(s@[start as int]),
    ensures
        start < j <= s@.len(),
        forall|k: int| start <= k < j ==> !is_space_char(s@[k]),
        j < s@.len() ==> is_space_char(s@[j as int]),
{
    let n = s.unicode_len();
    let mut j = start + 1;
    while j < n && !is_space(s.get_char(j))
        invariant
            n == s@.len(),
            start < j <= n,
            forall|k: int| start <= k < j ==> !is_space_char(s@[k]),
        decreases n - j,
    {
        j += 1;
    }
    j
}

/// Splits `s` at whitespace into its tokens.
pub fn split_whitespace_vec(s: &str) -> (r: Vec<String>)
    ensures
        views(r@) == spec_split_ws(s@),
{
    let n = s.unicode_len();
    let mut out: Vec<String> = Vec::new();
    let mut i: usize = 0;
    proof {
        assert(s@.skip(0) =~= s@);
        assert(views(out@) + spec_split_ws(s@) =~= spec_split_ws(s@));
    }
    while i < n
        invariant
            n == s@.len(),
            i <= n,
            spec_split_ws(s@) == views(out@) + spec_split_ws(s@.skip(i as int)),
        decreases n - i,
    {
        if is_space(s.get_char(i)) {
            proof {
                lemma_split_ws_skip_space(s@, i as int);
            }
            i += 1;
        } else {
            let j = token_end(s, i);
            let tok = s.substring_char(i, j);
            proof {
                lemma_split_ws_token(s@, i as int, j as int);
            }
            out.push(tok.to_owned());
            proof {
                assert(views(out@) =~= views(out@.drop_last()) + seq![tok@]);
            }
            i = j;
        }
    }
    proof {
        assert(s@.skip(n as int) =~= Seq::<char>::empty());
        assert(views(out@) =~= spec_split_ws(s@));
    }
    out
}

} // verus!
