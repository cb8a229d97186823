use flatplay::command::apply_container_workaround;
use flatplay::command::args_contain;
use flatplay::command::exit_result;
use flatplay::command::resolve_builder;
use flatplay::command::resolve_dispatch;
use flatplay::command::ExecutionContext;
use flatplay::errors::Error;

fn strs(v: &[&str]) -> Vec<String> {
    v.iter().map(|s| s.to_string()).collect()
}

#[test]
fn routing_sandbox_with_bridge_prepends_bridge() {
    let ctx = ExecutionContext { in_sandbox: true, in_nested_container: false };
    let t = resolve_dispatch("flatpak", strs(&["build-init", "repo"]), &ctx, true);
    assert_eq!(t.program, "host-spawn");
    assert_eq!(t.args, strs(&["flatpak", "build-init", "repo"]));
}

#[test]
fn routing_sandbox_without_bridge_uses_spawn_facility() {
    let ctx = ExecutionContext { in_sandbox: true, in_nested_container: false };
    let t = resolve_dispatch("flatpak", strs(&["build-init"]), &ctx, false);
    assert_eq!(t.program, "flatpak-spawn");
    assert_eq!(
        t.args,
        strs(&["--host", "--watch-bus", "--env=TERM=xterm-256color", "flatpak", "build-init"])
    );
}

#[test]
fn routing_bare_host_is_unchanged() {
    let ctx = ExecutionContext { in_sandbox: false, in_nested_container: false };
    let t = resolve_dispatch("flatpak", strs(&["build-init", "repo"]), &ctx, true);
    assert_eq!(t.program, "flatpak");
    assert_eq!(t.args, strs(&["build-init", "repo"]));
}

#[test]
fn workaround_appends_disable_flag_once() {
    let args = apply_container_workaround("flatpak-builder", strs(&["--ccache"]), true);
    assert_eq!(args, strs(&["--ccache", "--disable-rofiles-fuse"]));
    let count = args.iter().filter(|a| a.as_str() == "--disable-rofiles-fuse").count();
    assert_eq!(count, 1);
}

#[test]
fn workaround_never_appends_twice() {
    let once = apply_container_workaround("flatpak-builder", strs(&["--ccache"]), true);
    let twice = apply_container_workaround("flatpak-builder", once.clone(), true);
    assert_eq!(once, twice);
}

#[test]
fn workaround_only_for_builder_in_container() {
    let a = apply_container_workaround("flatpak", strs(&["--ccache"]), true);
    assert_eq!(a, strs(&["--ccache"]));
    let b = apply_container_workaround("flatpak-builder", strs(&["--ccache"]), false);
    assert_eq!(b, strs(&["--ccache"]));
}

#[test]
fn workaround_routes_through_dispatch() {
    let ctx = ExecutionContext { in_sandbox: false, in_nested_container: true };
    let t = resolve_dispatch("flatpak-builder", strs(&["--ccache", "repo"]), &ctx, false);
    assert_eq!(t.program, "flatpak-builder");
    assert_eq!(t.args, strs(&["--ccache", "repo", "--disable-rofiles-fuse"]));
}

#[test]
fn args_contain_finds_equal_string() {
    let v = strs(&["a", "bb", "ccc"]);
    assert!(args_contain(&v, "bb"));
    assert!(!args_contain(&v, "b"));
}

#[test]
fn builder_prefers_native_binary() {
    let r = resolve_builder(strs(&["--ccache"]), true, true).unwrap();
    assert_eq!(r.0, "flatpak-builder");
    assert_eq!(r.1, strs(&["--ccache"]));
}

#[test]
fn builder_falls_back_to_packaged_form() {
    let r = resolve_builder(strs(&["--ccache"]), false, true).unwrap();
    assert_eq!(r.0, "flatpak");
    assert_eq!(r.1, strs(&["run", "org.flatpak.Builder", "--ccache"]));
}

#[test]
fn builder_missing_everywhere_is_an_error() {
    let r = resolve_builder(strs(&[]), false, false);
    assert_eq!(r.unwrap_err(), Error::BuilderNotFound);
}

#[test]
fn exit_results_map_success_and_codes() {
    assert!(exit_result(true, Some(0)).is_ok());
    assert_eq!(exit_result(false, Some(7)).unwrap_err(), Error::CommandFailed { code: 7 });
    assert_eq!(exit_result(false, None).unwrap_err(), Error::CommandFailed { code: 1 });
}
