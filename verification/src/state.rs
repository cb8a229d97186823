//! The durable pipeline record: per-stage completion flags, the selected
//! manifest, and the owning process group. Loading and saving the record
//! is the caller's business; the transitions here say exactly how each
//! operation changes it.

use vstd::prelude::*;

use crate::build_dirs::path_join;
use crate::build_dirs::spec_path_join;

verus! {

/// Durable record of pipeline progress, one per project root.
#[derive(Clone, Debug)]
pub struct State {
    /// Path of the selected build manifest, if one has been chosen.
    pub active_manifest: Option<String>,
    /// The download-only dependency resolution has completed.
    pub dependencies_updated: bool,
    /// The build-only dependency resolution has completed.
    pub dependencies_built: bool,
    /// The application build stage has completed.
    pub application_built: bool,
    /// Process group of the running pipeline instance, if any.
    pub process_group_id: Option<u32>,
    /// Project root this record belongs to; not part of the persisted
    /// form.
    pub base_dir: String,
}

/// The mathematical value of a `State`.
pub ghost struct StateView {
    pub active_manifest: Option<Seq<char>>,
    pub dependencies_updated: bool,
    pub dependencies_built: bool,
    pub application_built: bool,
    pub process_group_id: Option<u32>,
    pub base_dir: Seq<char>,
}

impl View for State {
    type V = StateView;

    open spec fn view(&self) -> StateView {
        StateView {
            active_manifest: match self.active_manifest {
                Some(p) => Some(p@),
                None => None,
            },
            dependencies_updated: self.dependencies_updated,
            dependencies_built: self.dependencies_built,
            application_built: self.application_built,
            process_group_id: self.process_group_id,
            base_dir: self.base_dir@,
        }
    }
}

/// The record of a project no pipeline has touched yet.
pub open spec fn spec_default_state() -> StateView {
    StateView {
        active_manifest: None,
        dependencies_updated: false,
        dependencies_built: false,
        application_built: false,
        process_group_id: None,
        base_dir: Seq::<char>::empty(),
    }
}

/// A reset clears the three progress flags and nothing else.
pub open spec fn spec_reset(s: StateView) -> StateView {
    StateView { dependencies_updated: false, dependencies_built: false, application_built: false, ..s }
}

/// Selecting a manifest: choosing the one already active changes
/// nothing; choosing another updates it and clears the progress flags
/// atomically.
pub open spec fn spec_select(s: StateView, path: Seq<char>) -> StateView {
    if s.active_manifest == Some(path) {
        s
    } else {
        StateView {
            active_manifest: Some(path),
            dependencies_updated: false,
            dependencies_built: false,
            application_built: false,
            ..s
        }
    }
}

impl Default for State {
    /// The fresh record: nothing selected, nothing done, nobody running.
    fn default() -> (r: Self)
        ensures
            r@ == spec_default_state(),
    {
        State {
            active_manifest: None,
            dependencies_updated: false,
            dependencies_built: false,
            application_built: false,
            process_group_id: None,
            base_dir: String::new(),
        }
    }
}

impl State {
    /// Where the record is persisted, relative to the project root.
    pub fn state_file_path(base_dir: &str) -> (r: String)
        ensures
            r@ == spec_path_join(spec_path_join(base_dir@, ".flatplay"@), "state.json"@),
    {
        let d = path_join(base_dir, ".flatplay");
        path_join(d.as_str(), "state.json")
    }

    /// Clears the three progress flags in place, leaving the selected
    /// manifest and the owner process group untouched: a reset is scoped
    /// to build progress only.
    pub fn reset(&mut self)
        ensures
            final(self)@ == spec_reset(old(self)@),
    {
        self.dependencies_updated = false;
        self.dependencies_built = false;
        self.application_built = false;
    }

    /// Makes `path` the active manifest. Selecting a different manifest
    /// clears the progress flags atomically with the update; reselecting
    /// the active one changes nothing. Returns whether the selection
    /// changed.
    pub fn set_active_manifest(&mut self, path: String) -> (changed: bool)
        ensures
            final(self)@ == spec_select(old(self)@, path@),
            changed == (old(self)@.active_manifest != Some(path@)),
    {
        let same = match &self.active_manifest {
            Some(p) => *p == path,
            None => false,
        };
        if same {
            false
        } else {
            self.reset();
            self.active_manifest = Some(path);
            true
        }
    }
}

/// Law: selecting a manifest and then resetting yields a record whose
/// three progress flags are all cleared, whose active manifest is the
/// selected path (preserved when it was already active, updated when it
/// changed), and whose other fields are untouched.
pub proof fn lemma_select_then_reset(s: StateView, path: Seq<char>)
    ensures
        !spec_reset(spec_select(s, path)).dependencies_updated,
        !spec_reset(spec_select(s, path)).dependencies_built,
        !spec_reset(spec_select(s, path)).application_built,
        spec_reset(spec_select(s, path)).active_manifest == Some(path),
        spec_reset(spec_select(s, path)).process_group_id == s.process_group_id,
        spec_reset(spec_select(s, path)).base_dir == s.base_dir,
{
}

} // verus!
