//! The computing half of manifest discovery. Walking the file tree is
//! the caller's business; which entries are skipped, which files count
//! as manifest candidates, and how the findings are ordered and offered
//! for selection is decided here.

use vstd::prelude::*;

use vstd::seq_lib::lemma_multiset_commutative;
use vstd::string::StrSliceExecFns;

use crate::text::contains_seq;
use crate::text::str_contains;
use crate::text::str_eq;
use crate::text::views;

verus! {

/// A hidden directory entry: its name starts with a dot. Hidden
/// subtrees are skipped during discovery.
pub open spec fn spec_is_hidden(name: Seq<char>) -> bool {
    name.len() > 0 && name[0] == '.'
}

/// Whether a directory-entry name is hidden.
pub fn is_hidden_name(name: &str) -> (r: bool)
    ensures
        r == spec_is_hidden(name@),
{
    if name.unicode_len() == 0 {
        false
    } else {
        name.get_char(0) == '.'
    }
}

/// Index of the last occurrence of `c` in `s`, or -1.
pub open spec fn spec_last_index_of(s: Seq<char>, c: char) -> int
    decreases s.len(),
{
    if s.len() == 0 {
        -1
    } else if s[s.len() - 1] == c {
        s.len() - 1
    } else {
        spec_last_index_of(s.take(s.len() - 1), c)
    }
}

/// The file name of a path string: everything after the last `/`.
pub open spec fn spec_file_name(path: Seq<char>) -> Seq<char> {
    path.subrange(spec_last_index_of(path, '/') + 1, path.len() as int)
}

/// The extension of a path string: what follows the last dot of its
/// file name, provided that dot is not the name's first character.
pub open spec fn spec_extension(path: Seq<char>) -> Option<Seq<char>> {
    let name = spec_file_name(path);
    let d = spec_last_index_of(name, '.');
    if d <= 0 {
        None
    } else {
        Some(name.subrange(d + 1, name.len() as int))
    }
}

/// A manifest candidate is a file whose extension is `json`, `yaml` or
/// `yml`.
pub open spec fn spec_has_manifest_extension(path: Seq<char>) -> bool {
    ||| spec_extension(path) == Some("json"@)
    ||| spec_extension(path) == Some("yaml"@)
    ||| spec_extension(path) == Some("yml"@)
}

/// Index of the last occurrence of `c`, or `None`.
fn last_index_of(s: &str, c: char) -> (r: Option<usize>)
    ensures
        match r {
            Some(i) => i < s@.len() && spec_last_index_of(s@, c) == i,
            None => spec_last_index_of(s@, c) == -1,
        },
{
    let n = s.unicode_len();
    let mut cur: Option<usize> = None;
    let mut i: usize = 0;
    proof {
        assert(s@.take(0) =~= Seq::<char>::empty());
    }
    while i < n
        invariant
            n == s@.len(),
            i <= n,
            match cur {
                Some(k) => k < i && spec_last_index_of(s@.take(i as int), c) == k,
                None => spec_last_index_of(s@.take(i as int), c) == -1,
            },
        decreases n - i,
    {
        proof {
            assert(s@.take(i as int + 1).take(i as int) =~= s@.take(i as int));
            assert(s@.take(i as int + 1)[i as int] == s@[i as int]);
        }
        if s.get_char(i) == c {
            cur = Some(i);
        }
        i += 1;
    }
    proof {
        assert(s@.take(n as int) =~= s@);
    }
    cur
}

/// Whether a path names a manifest candidate by its extension.
pub fn has_manifest_extension(path: &str) -> (r: bool)
    ensures
        r == spec_has_manifest_extension(path@),
{
    let n = path.unicode_len();
    let slash = last_index_of(path, '/');
    let start = match slash {
        Some(i) => i + 1,
        None => 0,
    };
    let name = path.substring_char(start, n);
    proof {
        assert(name@ == spec_file_name(path@));
    }
    let dot = last_index_of(name, '.');
    let d = match dot {
        Some(i) => {
            if i == 0 {
                return false;
            }
            i
        },
        None => {
            return false;
        },
    };
    let m = name.unicode_len();
    let ext = name.substring_char(d + 1, m);
    proof {
        assert(ext@ == spec_extension(path@).unwrap());
    }
    str_eq(ext, "json") || str_eq(ext, "yaml") || str_eq(ext, "yml")
}

/// The depth of a path string: how many maximal separator-free runs of
/// characters it holds.
pub open spec fn spec_path_depth(s: Seq<char>) -> nat
    decreases s.len(),
{
    if s.len() == 0 {
        0
    } else {
        spec_path_depth(s.take(s.len() - 1)) + (if s[s.len() - 1] != '/' && (s.len() == 1 || s[s.len()
            - 2] == '/') {
            1nat
        } else {
            0nat
        })
    }
}

/// The depth of a path string.
pub fn path_depth(s: &str) -> (r: usize)
    ensures
        r == spec_path_depth(s@),
{
    let n = s.unicode_len();
    let mut count: usize = 0;
    let mut i: usize = 0;
    proof {
        assert(s@.take(0) =~= Seq::<char>::empty());
    }
    while i < n
        invariant
            n == s@.len(),
            i <= n,
            count <= i,
            count == spec_path_depth(s@.take(i as int)),
        decreases n - i,
    {
        proof {
            assert(s@.take(i as int + 1).take(i as int) =~= s@.take(i as int));
            assert(s@.take(i as int + 1)[i as int] == s@[i as int]);
            if i > 0 {
                assert(s@.take(i as int + 1)[i as int - 1] == s@[i as int - 1]);
            }
        }
        let starts_run = s.get_char(i) != '/' && (i == 0 || s.get_char(i - 1) == '/');
        if starts_run {
            count += 1;
        }
        i += 1;
    }
    proof {
        assert(s@.take(n as int) =~= s@);
    }
    count
}

/// A development manifest: its path mentions `.Devel.`.
pub open spec fn spec_is_devel(s: Seq<char>) -> bool {
    contains_seq(s, ".Devel."@)
}

/// The discovery ordering: development manifests first, then shallower
/// paths first.
pub open spec fn spec_manifest_leq(a: Seq<char>, b: Seq<char>) -> bool {
    if spec_is_devel(a) != spec_is_devel(b) {
        spec_is_devel(a)
    } else {
        spec_path_depth(a) <= spec_path_depth(b)
    }
}

/// Whether `a` comes no later than `b` in the discovery ordering.
pub fn manifest_leq(a: &str, b: &str) -> (r: bool)
    ensures
        r == spec_manifest_leq(a@, b@),
{
    let da = str_contains(a, ".Devel.");
    let db = str_contains(b, ".Devel.");
    if da != db {
        da
    } else {
        path_depth(a) <= path_depth(b)
    }
}

/// A list of paths sorted by the discovery ordering.
pub open spec fn spec_manifests_sorted(v: Seq<String>) -> bool {
    forall|i: int, j: int|
        0 <= i <= j < v.len() ==> #[trigger] spec_manifest_leq(v[i]@, v[j]@)
}

/// The discovery ordering is total and transitive.
proof fn lemma_manifest_order(a: Seq<char>, b: Seq<char>, c: Seq<char>)
    ensures
        spec_manifest_leq(a, b) || spec_manifest_leq(b, a),
        spec_manifest_leq(a, b) && spec_manifest_leq(b, c) ==> spec_manifest_leq(a, c),
{
}

/// Inserts `x` into a sorted list, before the first entry that must
/// come after it.
fn insert_sorted(out: &mut Vec<String>, x: String)
    requires
        spec_manifests_sorted(old(out)@),
    ensures
        spec_manifests_sorted(final(out)@),
        final(out)@.to_multiset() == old(out)@.to_multiset().insert(x),
{
    broadcast use vstd::seq_lib::group_to_multiset_ensures;

    let n = out.len();
    let mut k: usize = 0;
    while k < n && manifest_leq(out[k].as_str(), x.as_str())
        invariant
            n == out@.len(),
            k <= n,
            forall|l: int| 0 <= l < k ==> spec_manifest_leq(#[trigger] out@[l]@, x@),
        decreases n - k,
    {
        k += 1;
    }
    let ghost pre = out@;
    out.insert(k, x);
    proof {
        pre.insert_ensures(k as int, x);
        assert forall|i: int, j: int| 0 <= i <= j < out@.len() implies #[trigger] spec_manifest_leq(
            out@[i]@,
            out@[j]@,
        ) by {
            lemma_manifest_order(out@[i]@, out@[j]@, x@);
            if k < pre.len() {
                lemma_manifest_order(x@, pre[k as int]@, out@[j]@);
                if j > k {
                    lemma_manifest_order(x@, pre[k as int]@, pre[j - 1]@);
                }
            }
        }
        assert(out@ =~= pre.subrange(0, k as int).push(x) + pre.subrange(k as int, pre.len() as int));
        lemma_multiset_commutative(pre.subrange(0, k as int).push(x), pre.subrange(k as int, pre.len() as int));
        lemma_multiset_commutative(pre.subrange(0, k as int), pre.subrange(k as int, pre.len() as int));
        assert(pre =~= pre.subrange(0, k as int) + pre.subrange(k as int, pre.len() as int));
        assert(out@.to_multiset() =~= pre.to_multiset().insert(x));
    }
}

/// Sorts paths by the discovery ordering: development manifests first,
/// then shallower paths. The result holds exactly the given paths.
pub fn sort_manifests(v: &Vec<String>) -> (r: Vec<String>)
    ensures
        spec_manifests_sorted(r@),
        r@.to_multiset() == v@.to_multiset(),
{
    broadcast use vstd::seq_lib::group_to_multiset_ensures;

    let n = v.len();
    let mut out: Vec<String> = Vec::new();
    let mut i: usize = 0;
    proof {
        assert(v@.take(0) =~= Seq::<String>::empty());
        assert(out@.to_multiset() =~= v@.take(0).to_multiset());
    }
    while i < n
        invariant
            n == v@.len(),
            i <= n,
            spec_manifests_sorted(out@),
            out@.to_multiset() == v@.take(i as int).to_multiset(),
        decreases n - i,
    {
        insert_sorted(&mut out, v[i].clone());
        proof {
            broadcast use vstd::seq_lib::group_to_multiset_ensures;

            assert(v@.take(i as int + 1) =~= v@.take(i as int).push(v@[i as int]));
            assert(v@.take(i as int).push(v@[i as int]).to_multiset() =~= v@.take(
                i as int,
            ).to_multiset().insert(v@[i as int]));
        }
        i += 1;
    }
    proof {
        assert(v@.take(n as int) =~= v@);
    }
    out
}

/// A list with consecutive duplicates removed, keeping each run's first
/// entry.
pub open spec fn spec_dedup_adjacent(v: Seq<Seq<char>>) -> Seq<Seq<char>>
    decreases v.len(),
{
    if v.len() == 0 {
        seq![]
    } else if v.len() == 1 {
        v
    } else {
        let rest = spec_dedup_adjacent(v.drop_last());
        if v[v.len() - 1] == v[v.len() - 2] {
            rest
        } else {
            rest.push(v.last())
        }
    }
}

/// Removes consecutive duplicate paths, keeping each run's first entry.
pub fn dedup_adjacent(v: &Vec<String>) -> (r: Vec<String>)
    ensures
        views(r@) == spec_dedup_adjacent(views(v@)),
{
    let n = v.len();
    let mut out: Vec<String> = Vec::new();
    let mut i: usize = 0;
    proof {
        assert(views(v@).take(0) =~= Seq::<Seq<char>>::empty());
        assert(views(out@) =~= spec_dedup_adjacent(views(v@).take(0)));
    }
    while i < n
        invariant
            n == v@.len(),
            i <= n,
            views(out@) == spec_dedup_adjacent(views(v@).take(i as int)),
        decreases n - i,
    {
        let keep = if i == 0 {
            true
        } else {
            !str_eq(v[i].as_str(), v[i - 1].as_str())
        };
        let ghost out0 = out@;
        if keep {
            out.push(v[i].clone());
        }
        proof {
            let w = views(v@);
            assert(w.take(i as int + 1).drop_last() =~= w.take(i as int));
            assert(w.take(i as int + 1)[i as int] == w[i as int]);
            assert(w[i as int] == v@[i as int]@);
            if i > 0 {
                assert(w.take(i as int + 1)[i as int - 1] == w[i as int - 1]);
                assert(w[i as int - 1] == v@[i as int - 1]@);
            }
            if keep {
                assert(views(out@) =~= views(out0).push(w[i as int]));
            }
            if i == 0 {
                assert(views(out@) =~= w.take(1));
            }
            assert(views(out@) =~= spec_dedup_adjacent(w.take(i as int + 1)));
        }
        i += 1;
    }
    proof {
        assert(views(v@).take(n as int) =~= views(v@));
    }
    out
}

/// The entry offered as the default selection: the position of the
/// active manifest in the list, or the first entry when the active one
/// is absent or none is active.
pub fn default_selection_index(manifests: &Vec<String>, active: Option<&String>) -> (r: usize)
    ensures
        active is None ==> r == 0,
        active matches Some(a) ==> (if contains_view(manifests@, a@) {
            &&& r < manifests@.len()
            &&& manifests@[r as int]@ == a@
            &&& forall|j: int| 0 <= j < r ==> #[trigger] manifests@[j]@ != a@
        } else {
            r == 0
        }),
{
    match active {
        None => 0,
        Some(a) => {
            let n = manifests.len();
            let mut i: usize = 0;
            while i < n
                invariant
                    active == Some(a),
                    n == manifests@.len(),
                    i <= n,
                    forall|j: int| 0 <= j < i ==> #[trigger] manifests@[j]@ != a@,
                decreases n - i,
            {
                if str_eq(manifests[i].as_str(), a.as_str()) {
                    proof {
                        assert(manifests@[i as int]@ == a@);
                        assert(contains_view(manifests@, a@));
                    }
                    return i;
                }
                i += 1;
            }
            proof {
                assert(!contains_view(manifests@, a@));
            }
            0
        },
    }
}

/// Some entry of `v` reads `x`.
pub open spec fn contains_view(v: Seq<String>, x: Seq<char>) -> bool {
    exists|i: int| 0 <= i < v.len() && #[trigger] v[i]@ == x
}

} // verus!
