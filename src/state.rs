//! Persistent build progress of a project: which pipeline stages have
//! completed, and for which manifest content.

use vstd::prelude::*;

use crate::digest::{hex_of, manifest_hash, sha256_of};
use crate::layout::{join, join_path, BUILD_DIR};

verus! {

/// File name of the state file inside the build directory.
pub const STATE_FILE_NAME: &'static str = "state.json";

/// Build progress of one project, with the project root it belongs to.
pub struct State {
    /// Path of the selected manifest.
    pub active_manifest: Option<String>,
    /// Hex content hash of that manifest when progress was last validated.
    pub manifest_hash: Option<String>,
    pub dependencies_updated: bool,
    pub dependencies_built: bool,
    pub application_built: bool,
    /// The project root; not part of what is persisted.
    pub base_dir: String,
}

/// The persisted part of a [`State`]: the content of the state file.
pub struct StoredState {
    pub active_manifest: Option<String>,
    pub manifest_hash: Option<String>,
    pub dependencies_updated: bool,
    pub dependencies_built: bool,
    pub application_built: bool,
}

pub open spec fn opt_view(o: Option<String>) -> Option<Seq<char>> {
    match o {
        Some(s) => Some(s@),
        None => None,
    }
}

fn clone_opt(o: &Option<String>) -> (r: Option<String>)
    ensures
        r == *o,
{
    match o {
        Some(s) => Some(s.clone()),
        None => None,
    }
}

pub open spec fn state_file_path_spec(base_dir: Seq<char>) -> Seq<char> {
    join_path(join_path(base_dir, BUILD_DIR@), STATE_FILE_NAME@)
}

impl Default for State {
    /// A fresh state with an empty project root.
    fn default() -> (r: State)
        ensures
            r.is_fresh(),
            r.base_dir@ == Seq::<char>::empty(),
    {
        State {
            active_manifest: None,
            manifest_hash: None,
            dependencies_updated: false,
            dependencies_built: false,
            application_built: false,
            base_dir: String::new(),
        }
    }
}

impl State {
    /// No progress made and no manifest selected.
    pub open spec fn is_fresh(&self) -> bool {
        &&& self.active_manifest is None
        &&& self.manifest_hash is None
        &&& self.progress_cleared()
    }

    /// None of the three stages is recorded as complete.
    pub open spec fn progress_cleared(&self) -> bool {
        !self.dependencies_updated && !self.dependencies_built && !self.application_built
    }

    /// Everything but the progress flags is as in `other`.
    pub open spec fn same_identity(&self, other: &State) -> bool {
        &&& self.active_manifest == other.active_manifest
        &&& self.manifest_hash == other.manifest_hash
        &&& self.base_dir == other.base_dir
    }

    pub open spec fn load_spec(base_dir: String, stored: Option<StoredState>) -> State {
        match stored {
            None => State {
                active_manifest: None,
                manifest_hash: None,
                dependencies_updated: false,
                dependencies_built: false,
                application_built: false,
                base_dir,
            },
            Some(s) => State {
                active_manifest: s.active_manifest,
                manifest_hash: s.manifest_hash,
                dependencies_updated: s.dependencies_updated,
                dependencies_built: s.dependencies_built,
                application_built: s.application_built,
                base_dir,
            },
        }
    }

    pub open spec fn save_spec(&self) -> StoredState {
        StoredState {
            active_manifest: self.active_manifest,
            manifest_hash: self.manifest_hash,
            dependencies_updated: self.dependencies_updated,
            dependencies_built: self.dependencies_built,
            application_built: self.application_built,
        }
    }

    /// `<base_dir>/.flatplay/state.json`
    pub fn state_file_path(base_dir: &str) -> (r: String)
        ensures
            r@ == state_file_path_spec(base_dir@),
    {
        let dir = join(base_dir, BUILD_DIR);
        join(dir.as_str(), STATE_FILE_NAME)
    }

    /// The state of the project at `base_dir` from what its state file
    /// holds: `None` when there is no file (or it cannot be decoded), which
    /// gives the defaults.
    pub fn load(base_dir: String, stored: Option<StoredState>) -> (r: State)
        ensures
            r == State::load_spec(base_dir, stored),
    {
        match stored {
            None => State {
                active_manifest: None,
                manifest_hash: None,
                dependencies_updated: false,
                dependencies_built: false,
                application_built: false,
                base_dir,
            },
            Some(s) => State {
                active_manifest: s.active_manifest,
                manifest_hash: s.manifest_hash,
                dependencies_updated: s.dependencies_updated,
                dependencies_built: s.dependencies_built,
                application_built: s.application_built,
                base_dir,
            },
        }
    }

    /// The record that saving writes to the state file.
    pub fn save(&self) -> (r: StoredState)
        ensures
            r == self.save_spec(),
    {
        StoredState {
            active_manifest: clone_opt(&self.active_manifest),
            manifest_hash: clone_opt(&self.manifest_hash),
            dependencies_updated: self.dependencies_updated,
            dependencies_built: self.dependencies_built,
            application_built: self.application_built,
        }
    }

    /// Clears the build progress, and nothing else.
    pub fn reset(&mut self)
        ensures
            final(self).progress_cleared(),
            final(self).same_identity(old(self)),
    {
        self.dependencies_updated = false;
        self.dependencies_built = false;
        self.application_built = false;
    }

    /// Whether `hash` differs from the stored manifest hash (a missing one
    /// counts as different).
    pub open spec fn hash_changed(&self, hash: Seq<char>) -> bool {
        match self.manifest_hash {
            Some(h) => h@ != hash,
            None => true,
        }
    }

    /// The state once `hash` has been checked against the stored manifest hash.
    pub open spec fn after_manifest_hash(self, hash: String) -> State {
        if self.hash_changed(hash@) {
            State {
                manifest_hash: Some(hash),
                dependencies_updated: false,
                dependencies_built: false,
                application_built: false,
                ..self
            }
        } else {
            self
        }
    }

    /// Validates progress against the active manifest's current content
    /// hash: when it differs from the stored one, progress is reset and the
    /// new hash stored. Returns whether that happened.
    pub fn apply_manifest_hash(&mut self, hash: String) -> (changed: bool)
        ensures
            changed == old(self).hash_changed(hash@),
            *final(self) == old(self).after_manifest_hash(hash),
            changed ==> {
                &&& final(self).progress_cleared()
                &&& final(self).manifest_hash == Some(hash)
                &&& final(self).active_manifest == old(self).active_manifest
                &&& final(self).base_dir == old(self).base_dir
            },
            !changed ==> *final(self) == *old(self),
    {
        let changed = match &self.manifest_hash {
            Some(h) => *h != hash,
            None => true,
        };
        if changed {
            self.reset();
            self.manifest_hash = Some(hash);
        }
        changed
    }

    /// Hashes the active manifest's raw bytes (`manifest_content`) and
    /// validates progress against that hash as [`State::apply_manifest_hash`]
    /// does. Without an active manifest there is nothing to check and nothing
    /// changes.
    pub fn check_manifest_changed(&mut self, manifest_content: &[u8]) -> (changed: bool)
        ensures
            changed == (old(self).active_manifest is Some && old(self).hash_changed(
                hex_of(sha256_of(manifest_content@)),
            )),
            changed ==> {
                &&& final(self).progress_cleared()
                &&& opt_view(final(self).manifest_hash) == Some(
                    hex_of(sha256_of(manifest_content@)),
                )
                &&& final(self).active_manifest == old(self).active_manifest
                &&& final(self).base_dir == old(self).base_dir
            },
            !changed ==> *final(self) == *old(self),
    {
        if self.active_manifest.is_none() {
            return false;
        }
        let hash = manifest_hash(manifest_content);
        self.apply_manifest_hash(hash)
    }
}

/// Loading without a state file gives a fresh state, one that a reset leaves
/// as it is; saving a state and loading what was saved, under the same
/// project root, gives back the same state.
pub proof fn lemma_state_load_save_round_trip(base_dir: String, s: State)
    requires
        s.base_dir == base_dir,
    ensures
        State::load_spec(base_dir, None).is_fresh(),
        State::load_spec(base_dir, None).base_dir == base_dir,
        State::load_spec(base_dir, Some(s.save_spec())) == s,
{
}

} // verus!
