use flatplay::build_dirs::path_join;
use flatplay::build_dirs::BuildDirs;
use flatplay::manifest::is_valid_dbus_name;
use flatplay::scan::dedup_adjacent;
use flatplay::scan::default_selection_index;
use flatplay::scan::has_manifest_extension;
use flatplay::scan::is_hidden_name;
use flatplay::scan::manifest_leq;
use flatplay::scan::path_depth;
use flatplay::scan::sort_manifests;
use flatplay::text::remove_all;
use flatplay::text::split_whitespace_vec;
use flatplay::text::str_contains;
use flatplay::text::str_eq;
use flatplay::text::str_find;
use flatplay::text::str_trim;
use flatplay::utils::a11y_bus_args;
use flatplay::utils::env_flags;
use flatplay::utils::is_forwarded_env_key;

fn strs(v: &[&str]) -> Vec<String> {
    v.iter().map(|s| s.to_string()).collect()
}

#[test]
fn app_id_accepts_reverse_dns_names() {
    assert!(is_valid_dbus_name("org.example.App"));
    assert!(is_valid_dbus_name("io.github.some-user.App_2"));
}

#[test]
fn app_id_rejects_single_segment() {
    assert!(!is_valid_dbus_name("org"));
}

#[test]
fn app_id_rejects_segment_starting_with_digit() {
    assert!(!is_valid_dbus_name("1org.example"));
    assert!(!is_valid_dbus_name("org.2example"));
}

#[test]
fn app_id_rejects_empty_and_overlong() {
    assert!(!is_valid_dbus_name(""));
    let long = format!("org.{}", "a".repeat(300));
    assert!(!is_valid_dbus_name(&long));
}

#[test]
fn manifest_with_bad_id_is_rejected() {
    let m = flatplay::manifest::Manifest {
        id: "1org.example".to_string(),
        sdk: "sdk".to_string(),
        runtime: "rt".to_string(),
        runtime_version: "1".to_string(),
        command: "app".to_string(),
        x_run_args: None,
        modules: vec![],
        finish_args: vec![],
        cleanup: vec![],
    };
    assert_eq!(m.validate().unwrap_err(), flatplay::errors::Error::InvalidAppId);
    let mut ok = m.clone();
    ok.id = "org.example.App".to_string();
    assert!(ok.validate().is_ok());
}

#[test]
fn app_id_rejects_empty_segments_and_bad_chars() {
    assert!(!is_valid_dbus_name("org..example"));
    assert!(!is_valid_dbus_name(".org.example"));
    assert!(!is_valid_dbus_name("org.example."));
    assert!(!is_valid_dbus_name("org.exa mple"));
    assert!(!is_valid_dbus_name("org.exa/mple"));
}

#[test]
fn path_join_inserts_single_separator() {
    assert_eq!(path_join("/a", "b"), "/a/b");
    assert_eq!(path_join("/a/", "b"), "/a/b");
    assert_eq!(path_join("", "b"), "b");
}

#[test]
fn build_dirs_lay_out_fixed_tree() {
    let d = BuildDirs::new("/p".to_string());
    assert_eq!(d.build_dir(), "/p/.flatplay");
    assert_eq!(d.repo_dir(), "/p/.flatplay/repo");
    assert_eq!(d.build_subdir(), "/p/.flatplay/_build");
    assert_eq!(d.flatpak_builder_dir(), "/p/.flatplay/flatpak-builder");
    assert_eq!(d.finalized_repo_dir(), "/p/.flatplay/finalized-repo");
    assert_eq!(d.ostree_dir(), "/p/.flatplay/ostree");
    assert_eq!(d.metadata_file(), "/p/.flatplay/repo/metadata");
    assert_eq!(d.files_dir(), "/p/.flatplay/repo/files");
    assert_eq!(d.var_dir(), "/p/.flatplay/repo/var");
}

#[test]
fn str_helpers_compare_find_and_trim() {
    assert!(str_eq("abc", "abc"));
    assert!(!str_eq("abc", "abd"));
    assert!(!str_eq("abc", "ab"));
    assert_eq!(str_find("hello unix:path=/x", "unix:path="), Some(6));
    assert_eq!(str_find("hello", "unix:path="), None);
    assert!(str_contains("a.Devel.json", ".Devel."));
    assert_eq!(str_trim("  a b \n"), "a b");
    assert_eq!(str_trim("   "), "");
}

#[test]
fn remove_all_strips_every_occurrence() {
    assert_eq!(remove_all("('x('y", "('"), "xy");
    assert_eq!(remove_all("abc", "zz"), "abc");
}

#[test]
fn split_whitespace_drops_empty_tokens() {
    assert_eq!(split_whitespace_vec("  a  bb\tc "), strs(&["a", "bb", "c"]));
    assert_eq!(split_whitespace_vec(""), Vec::<String>::new());
    assert_eq!(split_whitespace_vec("   "), Vec::<String>::new());
}

#[test]
fn hidden_names_start_with_a_dot() {
    assert!(is_hidden_name(".git"));
    assert!(!is_hidden_name("src"));
    assert!(!is_hidden_name(""));
}

#[test]
fn manifest_extensions_are_json_yaml_yml() {
    assert!(has_manifest_extension("/a/b/org.example.App.json"));
    assert!(has_manifest_extension("m.yaml"));
    assert!(has_manifest_extension("m.yml"));
    assert!(!has_manifest_extension("m.txt"));
    assert!(!has_manifest_extension("/a/b/.gitignore"));
    assert!(!has_manifest_extension("Makefile"));
}

#[test]
fn depth_counts_path_components() {
    assert_eq!(path_depth("/a/b/c.json"), 3);
    assert_eq!(path_depth("a/b"), 2);
    assert_eq!(path_depth(""), 0);
    assert_eq!(path_depth("//a//b/"), 2);
}

#[test]
fn devel_manifests_sort_first_then_shallower() {
    assert!(manifest_leq("/a/x.Devel.json", "/x.json"));
    assert!(!manifest_leq("/a/b/x.json", "/p.Devel.json"));
    let v = strs(&["/a/b/deep.json", "/a/top.json", "/a/b/c/x.Devel.json"]);
    let sorted = sort_manifests(&v);
    assert_eq!(sorted, strs(&["/a/b/c/x.Devel.json", "/a/top.json", "/a/b/deep.json"]));
}

#[test]
fn dedup_removes_consecutive_duplicates() {
    let v = strs(&["a", "a", "b", "a"]);
    assert_eq!(dedup_adjacent(&v), strs(&["a", "b", "a"]));
}

#[test]
fn default_selection_prefers_active_manifest() {
    let v = strs(&["a.json", "b.json", "c.json"]);
    let active = "b.json".to_string();
    assert_eq!(default_selection_index(&v, Some(&active)), 1);
    let absent = "zz.json".to_string();
    assert_eq!(default_selection_index(&v, Some(&absent)), 0);
    assert_eq!(default_selection_index(&v, None), 0);
}

#[test]
fn forwarded_env_keys_are_the_fixed_list() {
    assert!(is_forwarded_env_key("LANG"));
    assert!(is_forwarded_env_key("WAYLAND_DISPLAY"));
    assert!(is_forwarded_env_key("AT_SPI_BUS_ADDRESS"));
    assert!(!is_forwarded_env_key("PATH"));
    assert!(!is_forwarded_env_key("HOME"));
}

#[test]
fn env_flags_keep_order_and_filter() {
    let pairs = vec![
        ("LANG".to_string(), "C.UTF-8".to_string()),
        ("PATH".to_string(), "/bin".to_string()),
        ("XDG_SESSION_TYPE".to_string(), "wayland".to_string()),
    ];
    assert_eq!(env_flags(&pairs), strs(&["--env=LANG=C.UTF-8", "--env=XDG_SESSION_TYPE=wayland"]));
}

#[test]
fn a11y_args_bridge_the_socket_path() {
    let raw = "('unix:path=/run/user/1000/at-spi/bus_1',)\n";
    assert_eq!(
        a11y_bus_args(raw),
        strs(&[
            "--bind-mount=/run/flatpak/at-spi-bus=/run/user/1000/at-spi/bus_1",
            "--env=AT_SPI_BUS_ADDRESS=unix:path=/run/flatpak/at-spi-bus"
        ])
    );
}

#[test]
fn a11y_args_keep_the_address_suffix() {
    let raw = "('unix:path=/tmp/bus,guid=abc',)";
    assert_eq!(
        a11y_bus_args(raw),
        strs(&[
            "--bind-mount=/run/flatpak/at-spi-bus=/tmp/bus",
            "--env=AT_SPI_BUS_ADDRESS=unix:path=/run/flatpak/at-spi-bus,guid=abc"
        ])
    );
}

#[test]
fn a11y_args_absent_without_socket_path() {
    assert_eq!(a11y_bus_args(""), Vec::<String>::new());
    assert_eq!(a11y_bus_args("tcp:host=x"), Vec::<String>::new());
}
