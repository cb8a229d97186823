//! Run-stage argument gathering: which host environment variables are
//! forwarded into the sandbox, and how the session accessibility-bus
//! address is turned into bridging arguments. Reading the environment
//! and querying the bus are the caller's business; the functions here
//! compute the argument strings from those plain values.

use vstd::prelude::*;

use vstd::string::StrSliceExecFns;
use vstd::string::StringExecFns;

use crate::text::lemma_find_absent;
use crate::text::lemma_find_first;
use crate::text::remove_all;
use crate::text::spec_find;
use crate::text::spec_remove_all;
use crate::text::spec_trim;
use crate::text::str_eq;
use crate::text::str_find;
use crate::text::str_trim;
use crate::text::views;

verus! {

/// The host environment variables forwarded into the sandbox at run
/// time.
pub open spec fn spec_is_forwarded_key(k: Seq<char>) -> bool {
    ||| k == "COLORTERM"@
    ||| k == "DESKTOP_SESSION"@
    ||| k == "LANG"@
    ||| k == "WAYLAND_DISPLAY"@
    ||| k == "XDG_CURRENT_DESKTOP"@
    ||| k == "XDG_SEAT"@
    ||| k == "XDG_SESSION_DESKTOP"@
    ||| k == "XDG_SESSION_ID"@
    ||| k == "XDG_SESSION_TYPE"@
    ||| k == "XDG_VTNR"@
    ||| k == "AT_SPI_BUS_ADDRESS"@
}

/// Whether a host environment variable is forwarded into the sandbox.
pub fn is_forwarded_env_key(key: &str) -> (r: bool)
    ensures
        r == spec_is_forwarded_key(key@),
{
    str_eq(key, "COLORTERM") || str_eq(key, "DESKTOP_SESSION") || str_eq(key, "LANG") || str_eq(
        key,
        "WAYLAND_DISPLAY",
    ) || str_eq(key, "XDG_CURRENT_DESKTOP") || str_eq(key, "XDG_SEAT") || str_eq(
        key,
        "XDG_SESSION_DESKTOP",
    ) || str_eq(key, "XDG_SESSION_ID") || str_eq(key, "XDG_SESSION_TYPE") || str_eq(
        key,
        "XDG_VTNR",
    ) || str_eq(key, "AT_SPI_BUS_ADDRESS")
}

/// The views of a list of key-value pairs.
pub open spec fn pair_views(v: Seq<(String, String)>) -> Seq<(Seq<char>, Seq<char>)> {
    Seq::new(v.len(), |i: int| (v[i].0@, v[i].1@))
}

/// The `--env=key=value` flags for the forwarded variables among the
/// pairs, in the order given.
pub open spec fn spec_env_flags(ps: Seq<(Seq<char>, Seq<char>)>) -> Seq<Seq<char>>
    decreases ps.len(),
{
    if ps.len() == 0 {
        seq![]
    } else {
        spec_env_flags(ps.drop_last()) + (if spec_is_forwarded_key(ps.last().0) {
            seq!["--env="@ + ps.last().0 + "="@ + ps.last().1]
        } else {
            seq![]
        })
    }
}

/// Turns the given environment pairs into `--env=key=value` flags,
/// keeping only the forwarded variables, in the order given.
pub fn env_flags(pairs: &Vec<(String, String)>) -> (r: Vec<String>)
    ensures
        views(r@) == spec_env_flags(pair_views(pairs@)),
{
    let n = pairs.len();
    let mut r: Vec<String> = Vec::new();
    let mut i: usize = 0;
    proof {
        assert(pair_views(pairs@).take(0) =~= Seq::<(Seq<char>, Seq<char>)>::empty());
        assert(views(r@) =~= spec_env_flags(pair_views(pairs@).take(0)));
    }
    while i < n
        invariant
            n == pairs@.len(),
            i <= n,
            views(r@) == spec_env_flags(pair_views(pairs@).take(i as int)),
        decreases n - i,
    {
        let (k, v) = &pairs[i];
        if is_forwarded_env_key(k.as_str()) {
            let flag = ("--env=".to_owned()).concat(k.as_str()).concat("=").concat(v.as_str());
            r.push(flag);
        }
        proof {
            let ps = pair_views(pairs@);
            assert(ps.take(i as int + 1).drop_last() =~= ps.take(i as int));
            assert(ps.take(i as int + 1).last() == ps[i as int]);
            assert(ps[i as int].0 == k@ && ps[i as int].1 == v@);
            assert(views(r@) =~= spec_env_flags(ps.take(i as int + 1)));
        }
        i += 1;
    }
    proof {
        assert(pair_views(pairs@).take(n as int) =~= pair_views(pairs@));
    }
    r
}

/// First position at or after `i` holding a comma, or the end of `s`.
pub open spec fn spec_comma_end(s: Seq<char>, i: int) -> int
    decreases s.len() - i,
{
    if i >= s.len() {
        s.len() as int
    } else if s[i] == ',' {
        i
    } else {
        spec_comma_end(s, i + 1)
    }
}

/// The accessibility-bus bridging arguments computed from the raw bus
/// address reply: the reply is trimmed and stripped of its tuple
/// wrapper; the socket path is what follows the first `unix:path=`, up
/// to the first comma; anything from that comma on is kept as an
/// address suffix. Without a socket path there are no arguments.
pub open spec fn spec_a11y_args(raw: Seq<char>) -> Seq<Seq<char>> {
    let s = spec_remove_all(spec_remove_all(spec_trim(raw), "('"@), "',)"@);
    let f = spec_find(s, "unix:path="@);
    if f < 0 {
        seq![]
    } else {
        let start = f + "unix:path="@.len();
        let j = spec_comma_end(s, start);
        if j == start {
            seq![]
        } else {
            let path = s.subrange(start, j);
            let suffix = s.subrange(j, s.len() as int);
            seq![
                "--bind-mount=/run/flatpak/at-spi-bus="@ + path,
                if suffix.len() > 0 {
                    "--env=AT_SPI_BUS_ADDRESS=unix:path=/run/flatpak/at-spi-bus"@ + suffix
                } else {
                    "--env=AT_SPI_BUS_ADDRESS=unix:path=/run/flatpak/at-spi-bus"@
                },
            ]
        }
    }
}

/// Computes the accessibility-bus bridging arguments from the raw bus
/// address reply: a bind mount of the session bus socket into the
/// sandbox, and the environment variable pointing at it.
pub fn a11y_bus_args(raw: &str) -> (r: Vec<String>)
    ensures
        views(r@) == spec_a11y_args(raw@),
{
    proof {
        reveal_strlit("('");
        reveal_strlit("',)");
    }
    let t = str_trim(raw);
    let s1 = remove_all(t, "('");
    let s2 = remove_all(s1.as_str(), "',)");
    let s = s2.as_str();
    let empty: Vec<String> = Vec::new();
    proof {
        assert(views(empty@) =~= Seq::<Seq<char>>::empty());
    }
    let f = match str_find(s, "unix:path=") {
        None => {
            proof {
                lemma_find_absent(s@, "unix:path="@);
            }
            return empty;
        },
        Some(f) => {
            proof {
                lemma_find_first(s@, "unix:path="@, f as int);
            }
            f
        },
    };
    let plen = "unix:path=".unicode_len();
    let n = s.unicode_len();
    proof {
        assert(f + plen <= n);
    }
    let start = f + plen;
    let mut j = start;
    while j < n && s.get_char(j) != ','
        invariant
            n == s@.len(),
            start <= j <= n,
            spec_comma_end(s@, start as int) == spec_comma_end(s@, j as int),
        decreases n - j,
    {
        proof {
            assert(spec_comma_end(s@, j as int) == spec_comma_end(s@, j as int + 1));
        }
        j += 1;
    }
    proof {
        assert(spec_comma_end(s@, start as int) == j as int);
    }
    if j == start {
        return empty;
    }
    let path = s.substring_char(start, j);
    let suffix = s.substring_char(j, n);
    let mut r: Vec<String> = Vec::new();
    r.push(("--bind-mount=/run/flatpak/at-spi-bus=".to_owned()).concat(path));
    if j < n {
        r.push(
            ("--env=AT_SPI_BUS_ADDRESS=unix:path=/run/flatpak/at-spi-bus".to_owned()).concat(
                suffix,
            ),
        );
    } else {
        r.push("--env=AT_SPI_BUS_ADDRESS=unix:path=/run/flatpak/at-spi-bus".to_owned());
    }
    proof {
        assert(views(r@) =~= spec_a11y_args(raw@));
    }
    r
}

} // verus!
