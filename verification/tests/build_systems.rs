use flatplay::build_dirs::BuildDirs;
use flatplay::manifest::Manifest;
use flatplay::manifest::Module;
use flatplay::pipeline::autotools_commands;
use flatplay::pipeline::build_application_commands;
use flatplay::pipeline::cmake_commands;
use flatplay::pipeline::meson_commands;
use flatplay::pipeline::post_install_commands;
use flatplay::pipeline::simple_commands;
use flatplay::pipeline::Invocation;

fn strs(v: &[&str]) -> Vec<String> {
    v.iter().map(|s| s.to_string()).collect()
}

fn direct(inv: &Invocation) -> (&str, &Vec<String>) {
    match inv {
        Invocation::Direct { program, args } => (program.as_str(), args),
        Invocation::Builder { .. } => panic!("expected a direct invocation"),
    }
}

fn manifest_with(module: Module) -> Manifest {
    Manifest {
        id: "org.example.App".to_string(),
        sdk: "org.freedesktop.Sdk".to_string(),
        runtime: "org.freedesktop.Platform".to_string(),
        runtime_version: "24.08".to_string(),
        command: "app".to_string(),
        x_run_args: None,
        modules: vec![module],
        finish_args: vec![],
        cleanup: vec![],
    }
}

#[test]
fn meson_setup_build_install() {
    let opts = strs(&["-Dfoo=true"]);
    let cmds = meson_commands("repo", "bdir", Some(&opts));
    assert_eq!(cmds.len(), 3);
    let (p0, a0) = direct(&cmds[0]);
    assert_eq!(p0, "flatpak");
    assert_eq!(
        a0,
        &strs(&["build", "repo", "meson", "setup", "-Dfoo=true", "--prefix=/app", "bdir"])
    );
    let (_, a1) = direct(&cmds[1]);
    assert_eq!(a1, &strs(&["build", "repo", "ninja", "-C", "bdir"]));
    let (_, a2) = direct(&cmds[2]);
    assert_eq!(a2, &strs(&["build", "repo", "meson", "install", "-C", "bdir"]));
}

#[test]
fn cmake_configure_build_install() {
    let cmds = cmake_commands("repo", "bdir", None);
    assert_eq!(cmds.len(), 3);
    let (_, a0) = direct(&cmds[0]);
    assert_eq!(
        a0,
        &strs(&[
            "build",
            "repo",
            "cmake",
            "-G",
            "Ninja",
            "-Bbdir",
            "-DCMAKE_EXPORT_COMPILE_COMMANDS=1",
            "-DCMAKE_BUILD_TYPE=RelWithDebInfo",
            "-DCMAKE_INSTALL_PREFIX=/app",
            "."
        ])
    );
    let (_, a2) = direct(&cmds[2]);
    assert_eq!(a2, &strs(&["build", "repo", "ninja", "-C", "bdir", "install"]));
}

#[test]
fn autotools_configure_make_install() {
    let opts = strs(&["--enable-x"]);
    let cmds = autotools_commands("repo", Some(&opts));
    assert_eq!(cmds.len(), 3);
    let (_, a0) = direct(&cmds[0]);
    assert_eq!(a0, &strs(&["build", "repo", "./configure", "--prefix=/app", "--enable-x"]));
    let (_, a1) = direct(&cmds[1]);
    assert_eq!(a1, &strs(&["build", "repo", "make"]));
    let (_, a2) = direct(&cmds[2]);
    assert_eq!(a2, &strs(&["build", "repo", "make", "install"]));
}

#[test]
fn simple_runs_each_command_in_build_root() {
    let cmds_in = strs(&["make install", "cp  a b"]);
    let cmds = simple_commands("repo", Some(&cmds_in));
    assert_eq!(cmds.len(), 2);
    let (_, a0) = direct(&cmds[0]);
    assert_eq!(a0, &strs(&["build", "repo", "make", "install"]));
    let (_, a1) = direct(&cmds[1]);
    assert_eq!(a1, &strs(&["build", "repo", "cp", "a", "b"]));
}

#[test]
fn post_install_first_token_is_the_program() {
    let cmds_in = strs(&["install -Dm644 a.desktop /app/share", "touch done"]);
    let cmds = post_install_commands(Some(&cmds_in));
    assert_eq!(cmds.len(), 2);
    let (p0, a0) = direct(&cmds[0]);
    assert_eq!(p0, "install");
    assert_eq!(a0, &strs(&["-Dm644", "a.desktop", "/app/share"]));
    let (p1, a1) = direct(&cmds[1]);
    assert_eq!(p1, "touch");
    assert_eq!(a1, &strs(&["done"]));
}

#[test]
fn unknown_buildsystem_defaults_to_autotools() {
    let m = manifest_with(Module::Object {
        name: "app".to_string(),
        buildsystem: None,
        config_opts: None,
        build_commands: None,
        post_install: None,
    });
    let cmds = build_application_commands(&m, &BuildDirs::new("/p".to_string()));
    assert_eq!(cmds.len(), 3);
    let (_, a0) = direct(&cmds[0]);
    assert_eq!(a0[2], "./configure");
}

#[test]
fn cmake_ninja_is_treated_as_cmake() {
    let m = manifest_with(Module::Object {
        name: "app".to_string(),
        buildsystem: Some("cmake-ninja".to_string()),
        config_opts: None,
        build_commands: None,
        post_install: None,
    });
    let cmds = build_application_commands(&m, &BuildDirs::new("/p".to_string()));
    let (_, a0) = direct(&cmds[0]);
    assert_eq!(a0[2], "cmake");
}

#[test]
fn reference_module_builds_nothing() {
    let m = manifest_with(Module::Reference("shared.json".to_string()));
    let cmds = build_application_commands(&m, &BuildDirs::new("/p".to_string()));
    assert!(cmds.is_empty());
}

#[test]
fn no_modules_build_nothing() {
    let mut m = manifest_with(Module::Reference("x".to_string()));
    m.modules = vec![];
    let cmds = build_application_commands(&m, &BuildDirs::new("/p".to_string()));
    assert!(cmds.is_empty());
}

#[test]
fn build_application_appends_post_install() {
    let m = manifest_with(Module::Object {
        name: "app".to_string(),
        buildsystem: Some("simple".to_string()),
        config_opts: None,
        build_commands: Some(strs(&["make"])),
        post_install: Some(strs(&["touch done"])),
    });
    let cmds = build_application_commands(&m, &BuildDirs::new("/p".to_string()));
    assert_eq!(cmds.len(), 2);
    let (p1, a1) = direct(&cmds[1]);
    assert_eq!(p1, "touch");
    assert_eq!(a1, &strs(&["done"]));
}
