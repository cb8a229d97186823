//! The pipeline orchestrator's decision core. Stages are ordered
//! initialize, update dependencies, build dependencies, build
//! application, run; each function here computes, from the persisted
//! record and the manifest, exactly which invocations a stage must
//! dispatch, and how the record changes when a stage succeeds. The
//! caller performs the invocations and reports back.

use vstd::prelude::*;

use vstd::string::StringExecFns;

use crate::build_dirs::BuildDirs;
use crate::manifest::Manifest;
use crate::manifest::ManifestView;
use crate::manifest::Module;
use crate::manifest::ModuleView;
use crate::state::State;
use crate::state::StateView;
use crate::text::push_all;
use crate::text::spec_split_ws;
use crate::text::split_whitespace_vec;
use crate::text::str_eq;
use crate::text::views;

verus! {

/// One unit of outside work the orchestrator wants done.
#[derive(Clone, Debug)]
pub enum Invocation {
    /// Run `program` with `args` through the dispatch layer.
    Direct { program: String, args: Vec<String> },
    /// Run the packaging build helper with `args`, through its two-tier
    /// resolution, then the dispatch layer.
    Builder { args: Vec<String> },
}

/// The mathematical value of an `Invocation`.
#[verifier::ext_equal]
pub ghost enum InvocationView {
    Direct { program: Seq<char>, args: Seq<Seq<char>> },
    Builder { args: Seq<Seq<char>> },
}

impl View for Invocation {
    type V = InvocationView;

    open spec fn view(&self) -> InvocationView {
        match self {
            Invocation::Direct { program, args } => (InvocationView::Direct {
                program: program@,
                args: views(args@),
            }),
            Invocation::Builder { args } => (InvocationView::Builder { args: views(args@) }),
        }
    }
}

/// The views of a list of invocations.
pub open spec fn inv_views(v: Seq<Invocation>) -> Seq<InvocationView> {
    Seq::new(v.len(), |i: int| v[i]@)
}

/// One phase of the build pipeline.
#[derive(Clone, Copy, Debug, PartialEq, Eq, Structural)]
pub enum Stage {
    Initialize,
    UpdateDependencies,
    BuildDependencies,
    BuildApplication,
}

/// The stages one `build` operation will execute, in order: initialize
/// when the build-root artifacts are missing, each dependency stage when
/// its flag is unset, and the application build always.
pub open spec fn spec_build_plan(
    dependencies_updated: bool,
    dependencies_built: bool,
    initialized: bool,
) -> Seq<Stage> {
    (if initialized {
        seq![]
    } else {
        seq![Stage::Initialize]
    }) + (if dependencies_updated {
        seq![]
    } else {
        seq![Stage::UpdateDependencies]
    }) + (if dependencies_built {
        seq![]
    } else {
        seq![Stage::BuildDependencies]
    }) + seq![Stage::BuildApplication]
}

/// Plans one `build` operation. `initialized` is the artifact probe's
/// finding on the build root: artifact presence, not a flag, is the
/// ground truth for the initialize stage.
pub fn build_plan(state: &State, initialized: bool) -> (r: Vec<Stage>)
    ensures
        r@ == spec_build_plan(state.dependencies_updated, state.dependencies_built, initialized),
{
    let mut r: Vec<Stage> = Vec::new();
    if !initialized {
        r.push(Stage::Initialize);
    }
    if !state.dependencies_updated {
        r.push(Stage::UpdateDependencies);
    }
    if !state.dependencies_built {
        r.push(Stage::BuildDependencies);
    }
    r.push(Stage::BuildApplication);
    proof {
        assert(r@ =~= spec_build_plan(
            state.dependencies_updated,
            state.dependencies_built,
            initialized,
        ));
    }
    r
}

/// How the record changes when a stage reports success: the stage's
/// flag is set; initialize has no flag.
pub open spec fn spec_complete_stage(s: StateView, stage: Stage) -> StateView {
    match stage {
        Stage::Initialize => s,
        Stage::UpdateDependencies => StateView { dependencies_updated: true, ..s },
        Stage::BuildDependencies => StateView { dependencies_built: true, ..s },
        Stage::BuildApplication => StateView { application_built: true, ..s },
    }
}

/// Records that `stage` completed successfully. The caller persists the
/// record immediately afterwards.
pub fn complete_stage(state: &mut State, stage: Stage)
    ensures
        final(state)@ == spec_complete_stage(old(state)@, stage),
{
    match stage {
        Stage::Initialize => {},
        Stage::UpdateDependencies => {
            state.dependencies_updated = true;
        },
        Stage::BuildDependencies => {
            state.dependencies_built = true;
        },
        Stage::BuildApplication => {
            state.application_built = true;
        },
    }
}

/// The environment-initialization invocation: sets up the build root
/// for the manifest's application, SDK and runtime.
pub fn init_build_command(m: &Manifest, dirs: &BuildDirs) -> (r: Invocation)
    ensures
        r@ == (InvocationView::Direct {
            program: "flatpak"@,
            args: seq![
                "build-init"@,
                dirs.spec_repo_dir(),
                m@.id,
                m@.sdk,
                m@.runtime,
                m@.runtime_version,
            ],
        }),
{
    let mut a: Vec<String> = Vec::new();
    a.push("build-init".to_owned());
    a.push(dirs.repo_dir());
    a.push(m.id.clone());
    a.push(m.sdk.clone());
    a.push(m.runtime.clone());
    a.push(m.runtime_version.clone());
    proof {
        assert(views(a@) =~= seq![
            "build-init"@,
            dirs.spec_repo_dir(),
            m@.id,
            m@.sdk,
            m@.runtime,
            m@.runtime_version,
        ]);
    }
    Invocation::Direct { program: "flatpak".to_owned(), args: a }
}

/// The arguments of the download-only dependency-resolution invocation.
pub open spec fn spec_update_dependencies_args(
    m: ManifestView,
    manifest_path: Seq<char>,
    dirs: &BuildDirs,
) -> Seq<Seq<char>> {
    seq![
        "--ccache"@,
        "--force-clean"@,
        "--disable-updates"@,
        "--download-only"@,
        "--state-dir="@ + dirs.spec_flatpak_builder_dir(),
        "--stop-at="@ + m.modules.last().name(),
        dirs.spec_repo_dir(),
        manifest_path,
    ]
}

/// The arguments of the build-only dependency-resolution invocation.
pub open spec fn spec_build_dependencies_args(
    m: ManifestView,
    manifest_path: Seq<char>,
    dirs: &BuildDirs,
) -> Seq<Seq<char>> {
    seq![
        "--ccache"@,
        "--force-clean"@,
        "--disable-updates"@,
        "--disable-download"@,
        "--build-only"@,
        "--keep-build-dirs"@,
        "--state-dir="@ + dirs.spec_flatpak_builder_dir(),
        "--stop-at="@ + m.modules.last().name(),
        dirs.spec_repo_dir(),
        manifest_path,
    ]
}

/// The update-dependencies stage: skipped once its flag is set, else one
/// packaging-helper invocation that downloads, without building, every
/// dependency up to the final module.
pub fn update_dependencies_invocation(
    state: &State,
    m: &Manifest,
    manifest_path: &str,
    dirs: &BuildDirs,
) -> (r: Option<Invocation>)
    requires
        m@.modules.len() > 0,
    ensures
        match r {
            None => state.dependencies_updated,
            Some(inv) => !state.dependencies_updated && inv@ == (InvocationView::Builder {
                args: spec_update_dependencies_args(m@, manifest_path@, dirs),
            }),
        },
{
    if state.dependencies_updated {
        return None;
    }
    let mut a: Vec<String> = Vec::new();
    a.push("--ccache".to_owned());
    a.push("--force-clean".to_owned());
    a.push("--disable-updates".to_owned());
    a.push("--download-only".to_owned());
    let d = dirs.flatpak_builder_dir();
    a.push(("--state-dir=".to_owned()).concat(d.as_str()));
    a.push(("--stop-at=".to_owned()).concat(m.last_module_name()));
    a.push(dirs.repo_dir());
    a.push(manifest_path.to_owned());
    proof {
        assert(views(a@) =~= spec_update_dependencies_args(m@, manifest_path@, dirs));
    }
    Some(Invocation::Builder { args: a })
}

/// The build-dependencies stage: skipped once its flag is set, else one
/// packaging-helper invocation that builds, without downloading, every
/// dependency up to the final module.
pub fn build_dependencies_invocation(
    state: &State,
    m: &Manifest,
    manifest_path: &str,
    dirs: &BuildDirs,
) -> (r: Option<Invocation>)
    requires
        m@.modules.len() > 0,
    ensures
        match r {
            None => state.dependencies_built,
            Some(inv) => !state.dependencies_built && inv@ == (InvocationView::Builder {
                args: spec_build_dependencies_args(m@, manifest_path@, dirs),
            }),
        },
{
    if state.dependencies_built {
        return None;
    }
    let mut a: Vec<String> = Vec::new();
    a.push("--ccache".to_owned());
    a.push("--force-clean".to_owned());
    a.push("--disable-updates".to_owned());
    a.push("--disable-download".to_owned());
    a.push("--build-only".to_owned());
    a.push("--keep-build-dirs".to_owned());
    let d = dirs.flatpak_builder_dir();
    a.push(("--state-dir=".to_owned()).concat(d.as_str()));
    a.push(("--stop-at=".to_owned()).concat(m.last_module_name()));
    a.push(dirs.repo_dir());
    a.push(manifest_path.to_owned());
    proof {
        assert(views(a@) =~= spec_build_dependencies_args(m@, manifest_path@, dirs));
    }
    Some(Invocation::Builder { args: a })
}

/// An absent option list contributes no arguments.
pub open spec fn spec_opts_or_empty(o: Option<Seq<Seq<char>>>) -> Seq<Seq<char>> {
    match o {
        Some(v) => v,
        None => seq![],
    }
}

/// The three build-tool invocations of a meson module: setup with the
/// configure options, build, install.
pub open spec fn spec_meson_cmds(repo: Seq<char>, build: Seq<char>, opts: Seq<Seq<char>>) -> Seq<
    InvocationView,
> {
    seq![
        (InvocationView::Direct {
            program: "flatpak"@,
            args: seq!["build"@, repo, "meson"@, "setup"@] + opts + seq!["--prefix=/app"@, build],
        }),
        (InvocationView::Direct {
            program: "flatpak"@,
            args: seq!["build"@, repo, "ninja"@, "-C"@, build],
        }),
        (InvocationView::Direct {
            program: "flatpak"@,
            args: seq!["build"@, repo, "meson"@, "install"@, "-C"@, build],
        }),
    ]
}

/// The three build-tool invocations of a cmake module: configure with
/// the configure options, build, install.
pub open spec fn spec_cmake_cmds(repo: Seq<char>, build: Seq<char>, opts: Seq<Seq<char>>) -> Seq<
    InvocationView,
> {
    seq![
        (InvocationView::Direct {
            program: "flatpak"@,
            args: seq![
                "build"@,
                repo,
                "cmake"@,
                "-G"@,
                "Ninja"@,
                "-B"@ + build,
                "-DCMAKE_EXPORT_COMPILE_COMMANDS=1"@,
                "-DCMAKE_BUILD_TYPE=RelWithDebInfo"@,
                "-DCMAKE_INSTALL_PREFIX=/app"@,
            ] + opts + seq!["."@],
        }),
        (InvocationView::Direct {
            program: "flatpak"@,
            args: seq!["build"@, repo, "ninja"@, "-C"@, build],
        }),
        (InvocationView::Direct {
            program: "flatpak"@,
            args: seq!["build"@, repo, "ninja"@, "-C"@, build, "install"@],
        }),
    ]
}

/// The three build-tool invocations of an autotools module: configure
/// with the configure options, make, make install.
pub open spec fn spec_autotools_cmds(repo: Seq<char>, opts: Seq<Seq<char>>) -> Seq<
    InvocationView,
> {
    seq![
        (InvocationView::Direct {
            program: "flatpak"@,
            args: seq!["build"@, repo, "./configure"@, "--prefix=/app"@] + opts,
        }),
        (InvocationView::Direct { program: "flatpak"@, args: seq!["build"@, repo, "make"@] }),
        (InvocationView::Direct {
            program: "flatpak"@,
            args: seq!["build"@, repo, "make"@, "install"@],
        }),
    ]
}

/// The invocations of a simple module: each build command, split at
/// whitespace, run inside the build root.
pub open spec fn spec_simple_cmds(repo: Seq<char>, cmds: Seq<Seq<char>>) -> Seq<InvocationView> {
    Seq::new(
        cmds.len(),
        |i: int|
            (InvocationView::Direct {
                program: "flatpak"@,
                args: seq!["build"@, repo] + spec_split_ws(cmds[i]),
            }),
    )
}

/// The post-install invocations: each command line split at whitespace,
/// its first token the program.
pub open spec fn spec_post_install_cmds(cmds: Seq<Seq<char>>) -> Seq<InvocationView> {
    Seq::new(
        cmds.len(),
        |i: int|
            (InvocationView::Direct {
                program: spec_split_ws(cmds[i])[0],
                args: spec_split_ws(cmds[i]).drop_first(),
            }),
    )
}

/// Which build system the final module's invocations follow: meson,
/// cmake (plain or ninja), simple, or the autotools default.
pub open spec fn spec_buildsystem_cmds(
    buildsystem: Option<Seq<char>>,
    config_opts: Option<Seq<Seq<char>>>,
    build_commands: Option<Seq<Seq<char>>>,
    repo: Seq<char>,
    build: Seq<char>,
) -> Seq<InvocationView> {
    if buildsystem == Some("meson"@) {
        spec_meson_cmds(repo, build, spec_opts_or_empty(config_opts))
    } else if buildsystem == Some("cmake"@) || buildsystem == Some("cmake-ninja"@) {
        spec_cmake_cmds(repo, build, spec_opts_or_empty(config_opts))
    } else if buildsystem == Some("simple"@) {
        spec_simple_cmds(repo, spec_opts_or_empty(build_commands))
    } else {
        spec_autotools_cmds(repo, spec_opts_or_empty(config_opts))
    }
}

/// The whole application-build stage: the final module's build-system
/// invocations followed by its post-install commands; a bare reference
/// as final module, or no module at all, builds nothing.
pub open spec fn spec_build_application_cmds(m: ManifestView, dirs: &BuildDirs) -> Seq<
    InvocationView,
> {
    if m.modules.len() == 0 {
        seq![]
    } else {
        match m.modules.last() {
            ModuleView::Reference(_) => seq![],
            ModuleView::Object { buildsystem, config_opts, build_commands, post_install, .. } => {
                spec_buildsystem_cmds(
                    buildsystem,
                    config_opts,
                    build_commands,
                    dirs.spec_repo_dir(),
                    dirs.spec_build_subdir(),
                ) + spec_post_install_cmds(spec_opts_or_empty(post_install))
            },
        }
    }
}

/// Every command line in the list has at least one token.
pub open spec fn spec_cmds_have_programs(cmds: Seq<Seq<char>>) -> bool {
    forall|i: int| 0 <= i < cmds.len() ==> spec_split_ws(#[trigger] cmds[i]).len() > 0
}

/// Every post-install command of the final module has at least one
/// token; an all-whitespace command line has no program to run.
pub open spec fn spec_post_install_wellformed(m: ManifestView) -> bool {
    m.modules.len() > 0 ==> match m.modules.last() {
        ModuleView::Object { post_install: Some(cmds), .. } => spec_cmds_have_programs(cmds),
        _ => true,
    }
}

/// The meson build commands for the build root `repo`.
pub fn meson_commands(repo: &str, build: &str, config_opts: Option<&Vec<String>>) -> (r: Vec<
    Invocation,
>)
    ensures
        inv_views(r@) == spec_meson_cmds(
            repo@,
            build@,
            match config_opts {
                Some(o) => views(o@),
                None => seq![],
            },
        ),
{
    let ghost opts_v: Seq<Seq<char>> = match config_opts {
        Some(o) => views(o@),
        None => seq![],
    };
    let mut a1: Vec<String> = Vec::new();
    a1.push("build".to_owned());
    a1.push(repo.to_owned());
    a1.push("meson".to_owned());
    a1.push("setup".to_owned());
    if let Some(o) = config_opts {
        push_all(&mut a1, o);
    }
    a1.push("--prefix=/app".to_owned());
    a1.push(build.to_owned());
    proof {
        assert(views(a1@) =~= seq!["build"@, repo@, "meson"@, "setup"@] + opts_v + seq![
            "--prefix=/app"@,
            build@,
        ]);
    }
    let mut a2: Vec<String> = Vec::new();
    a2.push("build".to_owned());
    a2.push(repo.to_owned());
    a2.push("ninja".to_owned());
    a2.push("-C".to_owned());
    a2.push(build.to_owned());
    proof {
        assert(views(a2@) =~= seq!["build"@, repo@, "ninja"@, "-C"@, build@]);
    }
    let mut a3: Vec<String> = Vec::new();
    a3.push("build".to_owned());
    a3.push(repo.to_owned());
    a3.push("meson".to_owned());
    a3.push("install".to_owned());
    a3.push("-C".to_owned());
    a3.push(build.to_owned());
    proof {
        assert(views(a3@) =~= seq!["build"@, repo@, "meson"@, "install"@, "-C"@, build@]);
    }
    let mut r: Vec<Invocation> = Vec::new();
    r.push(Invocation::Direct { program: "flatpak".to_owned(), args: a1 });
    r.push(Invocation::Direct { program: "flatpak".to_owned(), args: a2 });
    r.push(Invocation::Direct { program: "flatpak".to_owned(), args: a3 });
    proof {
        assert(inv_views(r@) =~~= spec_meson_cmds(repo@, build@, opts_v));
    }
    r
}

/// The cmake build commands for the build root `repo`.
pub fn cmake_commands(repo: &str, build: &str, config_opts: Option<&Vec<String>>) -> (r: Vec<
    Invocation,
>)
    ensures
        inv_views(r@) == spec_cmake_cmds(
            repo@,
            build@,
            match config_opts {
                Some(o) => views(o@),
                None => seq![],
            },
        ),
{
    let ghost opts_v: Seq<Seq<char>> = match config_opts {
        Some(o) => views(o@),
        None => seq![],
    };
    let mut a1: Vec<String> = Vec::new();
    a1.push("build".to_owned());
    a1.push(repo.to_owned());
    a1.push("cmake".to_owned());
    a1.push("-G".to_owned());
    a1.push("Ninja".to_owned());
    a1.push(("-B".to_owned()).concat(build));
    a1.push("-DCMAKE_EXPORT_COMPILE_COMMANDS=1".to_owned());
    a1.push("-DCMAKE_BUILD_TYPE=RelWithDebInfo".to_owned());
    a1.push("-DCMAKE_INSTALL_PREFIX=/app".to_owned());
    if let Some(o) = config_opts {
        push_all(&mut a1, o);
    }
    a1.push(".".to_owned());
    proof {
        assert(views(a1@) =~= seq![
            "build"@,
            repo@,
            "cmake"@,
            "-G"@,
            "Ninja"@,
            "-B"@ + build@,
            "-DCMAKE_EXPORT_COMPILE_COMMANDS=1"@,
            "-DCMAKE_BUILD_TYPE=RelWithDebInfo"@,
            "-DCMAKE_INSTALL_PREFIX=/app"@,
        ] + opts_v + seq!["."@]);
    }
    let mut a2: Vec<String> = Vec::new();
    a2.push("build".to_owned());
    a2.push(repo.to_owned());
    a2.push("ninja".to_owned());
    a2.push("-C".to_owned());
    a2.push(build.to_owned());
    proof {
        assert(views(a2@) =~= seq!["build"@, repo@, "ninja"@, "-C"@, build@]);
    }
    let mut a3: Vec<String> = Vec::new();
    a3.push("build".to_owned());
    a3.push(repo.to_owned());
    a3.push("ninja".to_owned());
    a3.push("-C".to_owned());
    a3.push(build.to_owned());
    a3.push("install".to_owned());
    proof {
        assert(views(a3@) =~= seq!["build"@, repo@, "ninja"@, "-C"@, build@, "install"@]);
    }
    let mut r: Vec<Invocation> = Vec::new();
    r.push(Invocation::Direct { program: "flatpak".to_owned(), args: a1 });
    r.push(Invocation::Direct { program: "flatpak".to_owned(), args: a2 });
    r.push(Invocation::Direct { program: "flatpak".to_owned(), args: a3 });
    proof {
        assert(inv_views(r@) =~~= spec_cmake_cmds(repo@, build@, opts_v));
    }
    r
}

/// The autotools build commands for the build root `repo`.
pub fn autotools_commands(repo: &str, config_opts: Option<&Vec<String>>) -> (r: Vec<Invocation>)
    ensures
        inv_views(r@) == spec_autotools_cmds(
            repo@,
            match config_opts {
                Some(o) => views(o@),
                None => seq![],
            },
        ),
{
    let ghost opts_v: Seq<Seq<char>> = match config_opts {
        Some(o) => views(o@),
        None => seq![],
    };
    let mut a1: Vec<String> = Vec::new();
    a1.push("build".to_owned());
    a1.push(repo.to_owned());
    a1.push("./configure".to_owned());
    a1.push("--prefix=/app".to_owned());
    if let Some(o) = config_opts {
        push_all(&mut a1, o);
    }
    proof {
        assert(views(a1@) =~= seq!["build"@, repo@, "./configure"@, "--prefix=/app"@] + opts_v);
    }
    let mut a2: Vec<String> = Vec::new();
    a2.push("build".to_owned());
    a2.push(repo.to_owned());
    a2.push("make".to_owned());
    proof {
        assert(views(a2@) =~= seq!["build"@, repo@, "make"@]);
    }
    let mut a3: Vec<String> = Vec::new();
    a3.push("build".to_owned());
    a3.push(repo.to_owned());
    a3.push("make".to_owned());
    a3.push("install".to_owned());
    proof {
        assert(views(a3@) =~= seq!["build"@, repo@, "make"@, "install"@]);
    }
    let mut r: Vec<Invocation> = Vec::new();
    r.push(Invocation::Direct { program: "flatpak".to_owned(), args: a1 });
    r.push(Invocation::Direct { program: "flatpak".to_owned(), args: a2 });
    r.push(Invocation::Direct { program: "flatpak".to_owned(), args: a3 });
    proof {
        assert(inv_views(r@) =~~= spec_autotools_cmds(repo@, opts_v));
    }
    r
}

/// The build commands of a simple module: each command line runs inside
/// the build root.
pub fn simple_commands(repo: &str, build_commands: Option<&Vec<String>>) -> (r: Vec<Invocation>)
    ensures
        inv_views(r@) == spec_simple_cmds(
            repo@,
            match build_commands {
                Some(c) => views(c@),
                None => seq![],
            },
        ),
{
    let mut r: Vec<Invocation> = Vec::new();
    let cmds = match build_commands {
        Some(c) => c,
        None => {
            proof {
                assert(inv_views(r@) =~~= spec_simple_cmds(repo@, seq![]));
            }
            return r;
        },
    };
    let n = cmds.len();
    let mut i: usize = 0;
    while i < n
        invariant
            n == cmds@.len(),
            i <= n,
            r@.len() == i,
            inv_views(r@) =~~= spec_simple_cmds(repo@, views(cmds@)).take(i as int),
        decreases n - i,
    {
        let mut a: Vec<String> = Vec::new();
        a.push("build".to_owned());
        a.push(repo.to_owned());
        let mut toks = split_whitespace_vec(cmds[i].as_str());
        a.append(&mut toks);
        proof {
            assert(views(a@) =~= seq!["build"@, repo@] + spec_split_ws(views(cmds@)[i as int]));
        }
        r.push(Invocation::Direct { program: "flatpak".to_owned(), args: a });
        proof {
            assert(r@[i as int]@ matches InvocationView::Direct { program, args } && program
                == "flatpak"@ && args =~~= seq!["build"@, repo@] + spec_split_ws(
                views(cmds@)[i as int],
            ));
            assert(inv_views(r@) =~~= spec_simple_cmds(repo@, views(cmds@)).take(i as int + 1));
        }
        i += 1;
    }
    proof {
        assert(spec_simple_cmds(repo@, views(cmds@)).take(n as int) =~~= spec_simple_cmds(
            repo@,
            views(cmds@),
        ));
    }
    r
}

/// The post-install commands of a module: each command line split at
/// whitespace, its first token the program to run.
pub fn post_install_commands(post_install: Option<&Vec<String>>) -> (r: Vec<Invocation>)
    requires
        match post_install {
            Some(c) => spec_cmds_have_programs(views(c@)),
            None => true,
        },
    ensures
        inv_views(r@) == spec_post_install_cmds(
            match post_install {
                Some(c) => views(c@),
                None => seq![],
            },
        ),
{
    let mut r: Vec<Invocation> = Vec::new();
    let cmds = match post_install {
        Some(c) => c,
        None => {
            proof {
                assert(inv_views(r@) =~~= spec_post_install_cmds(seq![]));
            }
            return r;
        },
    };
    let n = cmds.len();
    let mut i: usize = 0;
    while i < n
        invariant
            n == cmds@.len(),
            i <= n,
            r@.len() == i,
            spec_cmds_have_programs(views(cmds@)),
            inv_views(r@) =~~= spec_post_install_cmds(views(cmds@)).take(i as int),
        decreases n - i,
    {
        let mut toks = split_whitespace_vec(cmds[i].as_str());
        proof {
            assert(views(toks@) == spec_split_ws(views(cmds@)[i as int]));
        }
        let prog = toks.remove(0);
        proof {
            assert(views(toks@) =~= spec_split_ws(views(cmds@)[i as int]).drop_first());
            assert(prog@ == spec_split_ws(views(cmds@)[i as int])[0]);
        }
        r.push(Invocation::Direct { program: prog, args: toks });
        proof {
            assert(r@[i as int]@ matches InvocationView::Direct { program, args } && program
                == spec_split_ws(views(cmds@)[i as int])[0] && args =~~= spec_split_ws(
                views(cmds@)[i as int],
            ).drop_first());
            assert(inv_views(r@) =~~= spec_post_install_cmds(views(cmds@)).take(i as int + 1));
        }
        i += 1;
    }
    proof {
        assert(spec_post_install_cmds(views(cmds@)).take(n as int) =~~= spec_post_install_cmds(
            views(cmds@),
        ));
    }
    r
}

/// The application-build stage: the final module's build-system
/// commands, then its post-install commands. Always re-executed, so an
/// edit-rebuild-run cycle never goes stale.
pub fn build_application_commands(m: &Manifest, dirs: &BuildDirs) -> (r: Vec<Invocation>)
    requires
        spec_post_install_wellformed(m@),
    ensures
        inv_views(r@) == spec_build_application_cmds(m@, dirs),
{
    let empty: Vec<Invocation> = Vec::new();
    proof {
        assert(inv_views(empty@) =~~= Seq::<InvocationView>::empty());
    }
    if m.modules.len() == 0 {
        return empty;
    }
    let last = &m.modules[m.modules.len() - 1];
    match last {
        Module::Reference(_) => empty,
        Module::Object { buildsystem, config_opts, build_commands, post_install, .. } => {
            proof {
                assert(m@.modules.last() == m.modules@[m.modules@.len() - 1]@);
            }
            let repo = dirs.repo_dir();
            let build = dirs.build_subdir();
            let is_meson = match buildsystem {
                Some(b) => str_eq(b.as_str(), "meson"),
                None => false,
            };
            let is_cmake = match buildsystem {
                Some(b) => str_eq(b.as_str(), "cmake") || str_eq(b.as_str(), "cmake-ninja"),
                None => false,
            };
            let is_simple = match buildsystem {
                Some(b) => str_eq(b.as_str(), "simple"),
                None => false,
            };
            let mut r = if is_meson {
                meson_commands(repo.as_str(), build.as_str(), config_opts.as_ref())
            } else if is_cmake {
                cmake_commands(repo.as_str(), build.as_str(), config_opts.as_ref())
            } else if is_simple {
                simple_commands(repo.as_str(), build_commands.as_ref())
            } else {
                autotools_commands(repo.as_str(), config_opts.as_ref())
            };
            proof {
                assert(m@.modules.len() == m.modules@.len());
                assert(m@.modules.last() matches ModuleView::Object { post_install: pi, .. } && pi
                    == crate::manifest::opt_views(*post_install));
                match post_install {
                    Some(c) => {
                        assert(crate::manifest::opt_views(*post_install) == Some(views(c@)));
                        assert(spec_cmds_have_programs(views(c@)));
                    },
                    None => {},
                }
            }
            let mut post = post_install_commands(post_install.as_ref());
            let ghost r_v = inv_views(r@);
            let ghost post_v = inv_views(post@);
            r.append(&mut post);
            proof {
                assert(inv_views(r@) =~~= r_v + post_v);
            }
            r
        },
    }
}

/// The arguments of the run invocation: the fixed sandbox flags, the
/// forwarded environment, the accessibility-bus bridging arguments, the
/// manifest's finish arguments, the build root and run command, and any
/// extra run arguments.
pub open spec fn spec_run_args(
    m: ManifestView,
    dirs: &BuildDirs,
    env_args: Seq<Seq<char>>,
    a11y_args: Seq<Seq<char>>,
) -> Seq<Seq<char>> {
    seq![
        "build"@,
        "--with-appdir"@,
        "--allow=devel"@,
        "--talk-name=org.freedesktop.portal.*"@,
        "--talk-name=org.a11y.Bus"@,
    ] + env_args + a11y_args + m.finish_args + seq![dirs.spec_repo_dir(), m.command]
        + spec_opts_or_empty(m.x_run_args)
}

/// The run stage: requires a built application and an initialized build
/// root, else it does nothing. `env_args` and `a11y_args` are the
/// environment-forwarding and accessibility-bus arguments the caller
/// gathered.
pub fn run_invocation(
    state: &State,
    m: &Manifest,
    dirs: &BuildDirs,
    env_args: &Vec<String>,
    a11y_args: &Vec<String>,
    initialized: bool,
) -> (r: Option<Invocation>)
    ensures
        match r {
            None => !(state.application_built && initialized),
            Some(inv) => state.application_built && initialized && inv@
                == (InvocationView::Direct {
                program: "flatpak"@,
                args: spec_run_args(m@, dirs, views(env_args@), views(a11y_args@)),
            }),
        },
{
    if !state.application_built || !initialized {
        return None;
    }
    let mut a: Vec<String> = Vec::new();
    a.push("build".to_owned());
    a.push("--with-appdir".to_owned());
    a.push("--allow=devel".to_owned());
    a.push("--talk-name=org.freedesktop.portal.*".to_owned());
    a.push("--talk-name=org.a11y.Bus".to_owned());
    push_all(&mut a, env_args);
    push_all(&mut a, a11y_args);
    push_all(&mut a, &m.finish_args);
    a.push(dirs.repo_dir());
    a.push(m.command.clone());
    if let Some(x) = &m.x_run_args {
        push_all(&mut a, x);
    }
    proof {
        assert(views(a@) =~= spec_run_args(m@, dirs, views(env_args@), views(a11y_args@)));
    }
    Some(Invocation::Direct { program: "flatpak".to_owned(), args: a })
}

/// The bundle-export invocations: copy the build root aside, finalize
/// the copy with the manifest's finish arguments and run command, export
/// it into a repository, and bundle it as `<id>.flatpak`.
pub open spec fn spec_export_bundle_cmds(m: ManifestView, dirs: &BuildDirs) -> Seq<
    InvocationView,
> {
    seq![
        (InvocationView::Direct {
            program: "cp"@,
            args: seq!["-r"@, dirs.spec_repo_dir(), dirs.spec_finalized_repo_dir()],
        }),
        (InvocationView::Direct {
            program: "flatpak"@,
            args: seq!["build-finish"@] + m.finish_args + seq![
                "--command="@ + m.command,
                dirs.spec_finalized_repo_dir(),
            ],
        }),
        (InvocationView::Direct {
            program: "flatpak"@,
            args: seq!["build-export"@, dirs.spec_ostree_dir(), dirs.spec_finalized_repo_dir()],
        }),
        (InvocationView::Direct {
            program: "flatpak"@,
            args: seq!["build-bundle"@, dirs.spec_ostree_dir(), m.id + ".flatpak"@, m.id],
        }),
    ]
}

/// The bundle-export operation: requires a built application, else it
/// does nothing. The caller removes any stale finalized copy first; the
/// invocations then run in order.
pub fn export_bundle_commands(state: &State, m: &Manifest, dirs: &BuildDirs) -> (r: Option<
    Vec<Invocation>,
>)
    ensures
        match r {
            None => !state.application_built,
            Some(cmds) => state.application_built && inv_views(cmds@) == spec_export_bundle_cmds(
                m@,
                dirs,
            ),
        },
{
    if !state.application_built {
        return None;
    }
    let mut a1: Vec<String> = Vec::new();
    a1.push("-r".to_owned());
    a1.push(dirs.repo_dir());
    a1.push(dirs.finalized_repo_dir());
    proof {
        assert(views(a1@) =~= seq!["-r"@, dirs.spec_repo_dir(), dirs.spec_finalized_repo_dir()]);
    }
    let mut a2: Vec<String> = Vec::new();
    a2.push("build-finish".to_owned());
    push_all(&mut a2, &m.finish_args);
    a2.push(("--command=".to_owned()).concat(m.command.as_str()));
    a2.push(dirs.finalized_repo_dir());
    proof {
        assert(views(a2@) =~= seq!["build-finish"@] + m@.finish_args + seq![
            "--command="@ + m@.command,
            dirs.spec_finalized_repo_dir(),
        ]);
    }
    let mut a3: Vec<String> = Vec::new();
    a3.push("build-export".to_owned());
    a3.push(dirs.ostree_dir());
    a3.push(dirs.finalized_repo_dir());
    proof {
        assert(views(a3@) =~= seq![
            "build-export"@,
            dirs.spec_ostree_dir(),
            dirs.spec_finalized_repo_dir(),
        ]);
    }
    let mut a4: Vec<String> = Vec::new();
    a4.push("build-bundle".to_owned());
    a4.push(dirs.ostree_dir());
    a4.push(m.id.clone().concat(".flatpak"));
    a4.push(m.id.clone());
    proof {
        assert(views(a4@) =~= seq![
            "build-bundle"@,
            dirs.spec_ostree_dir(),
            m@.id + ".flatpak"@,
            m@.id,
        ]);
    }
    let mut r: Vec<Invocation> = Vec::new();
    r.push(Invocation::Direct { program: "cp".to_owned(), args: a1 });
    r.push(Invocation::Direct { program: "flatpak".to_owned(), args: a2 });
    r.push(Invocation::Direct { program: "flatpak".to_owned(), args: a3 });
    r.push(Invocation::Direct { program: "flatpak".to_owned(), args: a4 });
    proof {
        assert(inv_views(r@) =~~= spec_export_bundle_cmds(m@, dirs));
    }
    Some(r)
}

/// A terminal inside the manifest's SDK: run a shell in
/// `<sdk>//<runtime-version>`.
pub fn runtime_terminal_command(m: &Manifest) -> (r: Invocation)
    ensures
        r@ == (InvocationView::Direct {
            program: "flatpak"@,
            args: seq!["run"@, "--command=bash"@, m@.sdk + "//"@ + m@.runtime_version],
        }),
{
    let mut a: Vec<String> = Vec::new();
    a.push("run".to_owned());
    a.push("--command=bash".to_owned());
    a.push(m.sdk.clone().concat("//").concat(m.runtime_version.as_str()));
    proof {
        assert(views(a@) =~= seq!["run"@, "--command=bash"@, m@.sdk + "//"@ + m@.runtime_version]);
    }
    Invocation::Direct { program: "flatpak".to_owned(), args: a }
}

/// A terminal inside the current build root: run a shell under `build`.
pub fn build_terminal_command(dirs: &BuildDirs) -> (r: Invocation)
    ensures
        r@ == (InvocationView::Direct {
            program: "flatpak"@,
            args: seq!["build"@, dirs.spec_repo_dir(), "bash"@],
        }),
{
    let mut a: Vec<String> = Vec::new();
    a.push("build".to_owned());
    a.push(dirs.repo_dir());
    a.push("bash".to_owned());
    proof {
        assert(views(a@) =~= seq!["build"@, dirs.spec_repo_dir(), "bash"@]);
    }
    Invocation::Direct { program: "flatpak".to_owned(), args: a }
}

/// Law: a `build` planned after the update-dependencies stage has
/// completed never contains that stage again — running the pipeline
/// twice performs no second dependency update.
pub proof fn lemma_update_dependencies_idempotent(
    s: StateView,
    dependencies_built: bool,
    initialized: bool,
)
    ensures
        spec_complete_stage(s, Stage::UpdateDependencies).dependencies_updated,
        !spec_build_plan(true, dependencies_built, initialized).contains(
            Stage::UpdateDependencies,
        ),
{
    let p = spec_build_plan(true, dependencies_built, initialized);
    assert(forall|k: int| 0 <= k < p.len() ==> p[k] != Stage::UpdateDependencies) by {
        if initialized {
            if dependencies_built {
                assert(p =~= seq![Stage::BuildApplication]);
            } else {
                assert(p =~= seq![Stage::BuildDependencies, Stage::BuildApplication]);
            }
        } else {
            if dependencies_built {
                assert(p =~= seq![Stage::Initialize, Stage::BuildApplication]);
            } else {
                assert(p =~= seq![
                    Stage::Initialize,
                    Stage::BuildDependencies,
                    Stage::BuildApplication,
                ]);
            }
        }
    }
}

} // verus!
