//! The command-dispatch layer: given a logical command and its arguments,
//! decide the concrete program and argument vector to execute, depending
//! on the execution environment. Spawning the result is the caller's
//! business; everything here is a pure decision.

use vstd::prelude::*;

use crate::errors::Error;
use crate::text::str_eq;
use crate::text::views;

verus! {

/// The execution environment, probed once per process lifetime.
#[derive(Clone, Copy, Debug)]
pub struct ExecutionContext {
    /// A well-known sandbox marker file is present.
    pub in_sandbox: bool,
    /// A well-known container marker file is present.
    pub in_nested_container: bool,
}

/// A fully resolved invocation: the program to spawn and its arguments,
/// in order. Computed per dispatch, never persisted.
#[derive(Clone, Debug)]
pub struct DispatchTarget {
    pub program: String,
    pub args: Vec<String>,
}

/// The packaging build helper has a known sandbox-interaction defect in
/// nested containers; its fast path must be disabled unless the caller
/// already did so.
pub open spec fn spec_needs_workaround(
    command: Seq<char>,
    args: Seq<Seq<char>>,
    in_nested_container: bool,
) -> bool {
    &&& command == "flatpak-builder"@
    &&& in_nested_container
    &&& !args.contains("--disable-rofiles-fuse"@)
}

/// The argument vector after the nested-container workaround: unchanged,
/// except that the disabling flag is appended when it is needed.
pub open spec fn spec_effective_args(
    command: Seq<char>,
    args: Seq<Seq<char>>,
    in_nested_container: bool,
) -> Seq<Seq<char>> {
    if spec_needs_workaround(command, args, in_nested_container) {
        args.push("--disable-rofiles-fuse"@)
    } else {
        args
    }
}

/// The program that actually gets spawned: a host bridge when sandboxed,
/// the logical command itself otherwise.
pub open spec fn spec_route_program(
    command: Seq<char>,
    in_sandbox: bool,
    host_spawn_available: bool,
) -> Seq<char> {
    if in_sandbox {
        if host_spawn_available {
            "host-spawn"@
        } else {
            "flatpak-spawn"@
        }
    } else {
        command
    }
}

/// The argument vector that actually gets spawned, for the program of
/// `spec_route_program`.
pub open spec fn spec_route_args(
    command: Seq<char>,
    args: Seq<Seq<char>>,
    in_sandbox: bool,
    host_spawn_available: bool,
) -> Seq<Seq<char>> {
    if in_sandbox {
        if host_spawn_available {
            seq![command] + args
        } else {
            seq!["--host"@, "--watch-bus"@, "--env=TERM=xterm-256color"@, command] + args
        }
    } else {
        args
    }
}

/// Whether some argument equals `what`.
pub fn args_contain(args: &Vec<String>, what: &str) -> (r: bool)
    ensures
        r == views(args@).contains(what@),
{
    let n = args.len();
    let mut i: usize = 0;
    while i < n
        invariant
            n == args@.len(),
            i <= n,
            forall|j: int| 0 <= j < i ==> views(args@)[j] != what@,
        decreases n - i,
    {
        if str_eq(args[i].as_str(), what) {
            proof {
                assert(views(args@)[i as int] == what@);
            }
            return true;
        }
        i += 1;
    }
    proof {
        assert(forall|j: int| 0 <= j < views(args@).len() ==> views(args@)[j] != what@);
    }
    false
}

/// Applies the nested-container workaround for the packaging build
/// helper: appends the fast-path-disabling flag when the command is the
/// helper, the context is a nested container, and the caller has not
/// already passed the flag.
pub fn apply_container_workaround(
    command: &str,
    args: Vec<String>,
    in_nested_container: bool,
) -> (r: Vec<String>)
    ensures
        views(r@) == spec_effective_args(command@, views(args@), in_nested_container),
{
    let needs = in_nested_container && str_eq(command, "flatpak-builder") && !args_contain(
        &args,
        "--disable-rofiles-fuse",
    );
    let mut r = args;
    if needs {
        r.push("--disable-rofiles-fuse".to_owned());
        proof {
            assert(views(r@) =~= views(r@.drop_last()).push("--disable-rofiles-fuse"@));
        }
    }
    r
}

/// Resolves a logical command to the concrete program and arguments to
/// spawn: the nested-container workaround first, then rerouting through
/// a host bridge (the dedicated helper if available, else the sandbox's
/// own spawn facility) when running inside a sandbox.
pub fn resolve_dispatch(
    command: &str,
    args: Vec<String>,
    ctx: &ExecutionContext,
    host_spawn_available: bool,
) -> (t: DispatchTarget)
    ensures
        t.program@ == spec_route_program(command@, ctx.in_sandbox, host_spawn_available),
        views(t.args@) == spec_route_args(
            command@,
            spec_effective_args(command@, views(args@), ctx.in_nested_container),
            ctx.in_sandbox,
            host_spawn_available,
        ),
{
    let effective = apply_container_workaround(command, args, ctx.in_nested_container);
    let ghost eff = views(effective@);
    if ctx.in_sandbox {
        if host_spawn_available {
            let mut v: Vec<String> = Vec::new();
            v.push(command.to_owned());
            let mut rest = effective;
            v.append(&mut rest);
            proof {
                assert(views(v@) =~= seq![command@] + eff);
            }
            DispatchTarget { program: "host-spawn".to_owned(), args: v }
        } else {
            let mut v: Vec<String> = Vec::new();
            v.push("--host".to_owned());
            v.push("--watch-bus".to_owned());
            v.push("--env=TERM=xterm-256color".to_owned());
            v.push(command.to_owned());
            let mut rest = effective;
            v.append(&mut rest);
            proof {
                assert(views(v@) =~= seq![
                    "--host"@,
                    "--watch-bus"@,
                    "--env=TERM=xterm-256color"@,
                    command@,
                ] + eff);
            }
            DispatchTarget { program: "flatpak-spawn".to_owned(), args: v }
        }
    } else {
        DispatchTarget { program: command.to_owned(), args: effective }
    }
}

/// Resolves the packaging build helper: the native binary when available,
/// else the helper packaged as a sandboxed application, else an error
/// naming the situation. The result is a logical command, still subject
/// to `resolve_dispatch`.
pub fn resolve_builder(args: Vec<String>, native_available: bool, packaged_available: bool) -> (r:
    Result<(String, Vec<String>), Error>)
    ensures
        match r {
            Ok(pa) => ({
                ||| (native_available && pa.0@ == "flatpak-builder"@ && views(pa.1@) == views(
                    args@,
                ))
                ||| (!native_available && packaged_available && pa.0@ == "flatpak"@ && views(pa.1@)
                    == seq!["run"@, "org.flatpak.Builder"@] + views(args@))
            }),
            Err(e) => e == (Error::BuilderNotFound) && !native_available && !packaged_available,
        },
{
    if native_available {
        Ok(("flatpak-builder".to_owned(), args))
    } else if packaged_available {
        let mut v: Vec<String> = Vec::new();
        v.push("run".to_owned());
        v.push("org.flatpak.Builder".to_owned());
        let mut rest = args;
        let ghost args_v = views(rest@);
        v.append(&mut rest);
        proof {
            assert(views(v@) =~= seq!["run"@, "org.flatpak.Builder"@] + args_v);
        }
        Ok(("flatpak".to_owned(), v))
    } else {
        Err(Error::BuilderNotFound)
    }
}

/// Maps the exit of a dispatched command to success or failure:
/// success exactly on a successful exit, else the exit code (taken as 1
/// when the process died without one, e.g. by signal).
pub fn exit_result(success: bool, code: Option<i32>) -> (r: Result<(), Error>)
    ensures
        success <==> r is Ok,
        !success ==> r == Err::<(), Error>(
            (Error::CommandFailed {
                code: match code {
                    Some(c) => c,
                    None => 1,
                },
            }),
        ),
{
    if success {
        Ok(())
    } else {
        match code {
            Some(c) => Err(Error::CommandFailed { code: c }),
            None => Err(Error::CommandFailed { code: 1 }),
        }
    }
}

/// How many arguments equal `x`.
pub open spec fn count_matches(v: Seq<Seq<char>>, x: Seq<char>) -> nat
    decreases v.len(),
{
    if v.len() == 0 {
        0
    } else {
        count_matches(v.drop_last(), x) + (if v.last() == x {
            1nat
        } else {
            0nat
        })
    }
}

proof fn lemma_count_zero(v: Seq<Seq<char>>, x: Seq<char>)
    ensures
        (count_matches(v, x) == 0) <==> !v.contains(x),
    decreases v.len(),
{
    if v.len() == 0 {
    } else {
        lemma_count_zero(v.drop_last(), x);
        assert(v.contains(x) <==> (v.drop_last().contains(x) || v.last() == x)) by {
            if v.contains(x) {
                let i = choose|i: int| 0 <= i < v.len() && v[i] == x;
                if i < v.len() - 1 {
                    assert(v.drop_last()[i] == x);
                }
            }
            if v.drop_last().contains(x) {
                let i = choose|i: int| 0 <= i < v.drop_last().len() && v.drop_last()[i] == x;
                assert(v[i] == x);
            }
            if v.last() == x {
                assert(v[v.len() - 1] == x);
            }
        }
    }
}

/// The nested-container workaround appends exactly one instance of the
/// disabling flag when the caller passed none.
pub proof fn lemma_workaround_appends_once(command: Seq<char>, args: Seq<Seq<char>>)
    requires
        command == "flatpak-builder"@,
        !args.contains("--disable-rofiles-fuse"@),
    ensures
        count_matches(spec_effective_args(command, args, true), "--disable-rofiles-fuse"@) == 1,
{
    let flag = "--disable-rofiles-fuse"@;
    lemma_count_zero(args, flag);
    let e = args.push(flag);
    assert(e.drop_last() =~= args);
    assert(e.last() == flag);
}

/// Applying the nested-container workaround twice is the same as
/// applying it once: the flag is never appended twice.
pub proof fn lemma_workaround_idempotent(
    command: Seq<char>,
    args: Seq<Seq<char>>,
    in_nested_container: bool,
)
    ensures
        spec_effective_args(
            command,
            spec_effective_args(command, args, in_nested_container),
            in_nested_container,
        ) == spec_effective_args(command, args, in_nested_container),
{
    let flag = "--disable-rofiles-fuse"@;
    if spec_needs_workaround(command, args, in_nested_container) {
        let e = args.push(flag);
        assert(e[args.len() as int] == flag);
        assert(e.contains(flag));
    }
}

} // verus!
