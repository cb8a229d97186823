use flatplay::process::release_lock;
use flatplay::process::stop_transition;
use flatplay::process::try_acquire_lock;
use flatplay::process::StopAction;
use flatplay::errors::Error;
use flatplay::state::State;

fn progressed_state() -> State {
    State {
        active_manifest: Some("m.json".to_string()),
        dependencies_updated: true,
        dependencies_built: true,
        application_built: true,
        process_group_id: Some(4242),
        base_dir: "/proj".to_string(),
    }
}

#[test]
fn default_state_is_empty() {
    let s = State::default();
    assert_eq!(s.active_manifest, None);
    assert!(!s.dependencies_updated);
    assert!(!s.dependencies_built);
    assert!(!s.application_built);
    assert_eq!(s.process_group_id, None);
}

#[test]
fn reset_clears_only_progress_flags() {
    let mut s = progressed_state();
    s.reset();
    assert!(!s.dependencies_updated);
    assert!(!s.dependencies_built);
    assert!(!s.application_built);
    assert_eq!(s.active_manifest, Some("m.json".to_string()));
    assert_eq!(s.process_group_id, Some(4242));
    assert_eq!(s.base_dir, "/proj");
}

#[test]
fn select_same_manifest_then_reset_preserves_it() {
    let mut s = progressed_state();
    let changed = s.set_active_manifest("m.json".to_string());
    assert!(!changed);
    s.reset();
    assert_eq!(s.active_manifest, Some("m.json".to_string()));
    assert!(!s.dependencies_updated && !s.dependencies_built && !s.application_built);
}

#[test]
fn select_other_manifest_then_reset_updates_it() {
    let mut s = progressed_state();
    let changed = s.set_active_manifest("other.yml".to_string());
    assert!(changed);
    assert!(!s.dependencies_updated && !s.dependencies_built && !s.application_built);
    s.reset();
    assert_eq!(s.active_manifest, Some("other.yml".to_string()));
    assert!(!s.dependencies_updated && !s.dependencies_built && !s.application_built);
    assert_eq!(s.process_group_id, Some(4242));
}

#[test]
fn selecting_different_manifest_resets_flags_atomically() {
    let mut s = progressed_state();
    s.set_active_manifest("b.json".to_string());
    assert_eq!(s.active_manifest, Some("b.json".to_string()));
    assert!(!s.dependencies_updated && !s.dependencies_built && !s.application_built);
}

#[test]
fn live_owner_refuses_start_and_mutates_nothing() {
    let mut s = progressed_state();
    let before = s.clone();
    let r = try_acquire_lock(&mut s, true, 777);
    assert_eq!(r.unwrap_err(), Error::LockContention { pgid: 4242 });
    assert_eq!(s.process_group_id, before.process_group_id);
    assert_eq!(s.active_manifest, before.active_manifest);
    assert_eq!(s.dependencies_updated, before.dependencies_updated);
    assert_eq!(s.dependencies_built, before.dependencies_built);
    assert_eq!(s.application_built, before.application_built);
}

#[test]
fn dead_owner_is_overwritten() {
    let mut s = progressed_state();
    let r = try_acquire_lock(&mut s, false, 777);
    assert!(r.is_ok());
    assert_eq!(s.process_group_id, Some(777));
}

#[test]
fn absent_owner_is_claimed() {
    let mut s = State::default();
    let r = try_acquire_lock(&mut s, false, 777);
    assert!(r.is_ok());
    assert_eq!(s.process_group_id, Some(777));
}

#[test]
fn stop_without_owner_is_noop_success() {
    let mut s = State::default();
    let a = stop_transition(&mut s, false);
    assert_eq!(a, StopAction::NothingRunning);
    assert_eq!(s.process_group_id, None);
    assert_eq!(s.active_manifest, None);
}

#[test]
fn stop_live_owner_signals_whole_group() {
    let mut s = progressed_state();
    let a = stop_transition(&mut s, true);
    assert_eq!(a, StopAction::SignaledGroup { pgid: 4242 });
    assert_eq!(s.process_group_id, None);
    assert!(s.application_built);
}

#[test]
fn stop_dead_owner_cleans_stale_record() {
    let mut s = progressed_state();
    let a = stop_transition(&mut s, false);
    assert_eq!(a, StopAction::ClearedStale { pgid: 4242 });
    assert_eq!(s.process_group_id, None);
}

#[test]
fn release_clears_owner_only() {
    let mut s = progressed_state();
    release_lock(&mut s);
    assert_eq!(s.process_group_id, None);
    assert!(s.application_built);
    assert_eq!(s.active_manifest, Some("m.json".to_string()));
}

#[test]
fn state_file_path_is_under_metadata_dir() {
    assert_eq!(State::state_file_path("/proj"), "/proj/.flatplay/state.json");
    assert_eq!(State::state_file_path(""), ".flatplay/state.json");
}
