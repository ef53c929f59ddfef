//! The build pipeline's sequencing: which stages a build runs given the
//! recorded progress, and how progress is recorded.

use vstd::prelude::*;

use crate::digest::{hex_of, manifest_hash, sha256_of};
use crate::state::{opt_view, State};

verus! {

/// A stage of the build pipeline.
#[derive(Debug, Clone, Copy, PartialEq, Eq, Structural)]
pub enum Stage {
    /// Download the dependencies' sources.
    UpdateDependencies,
    /// Build every module but the application.
    BuildDependencies,
    /// Build the application module; never skipped.
    BuildApplication,
}

/// The stages that a full build runs, in order: each dependency stage only
/// while it is not recorded as done, the application always.
pub open spec fn planned_stages(s: State) -> Seq<Stage> {
    (if s.dependencies_updated {
        seq![]
    } else {
        seq![Stage::UpdateDependencies]
    }) + (if s.dependencies_built {
        seq![]
    } else {
        seq![Stage::BuildDependencies]
    }) + seq![Stage::BuildApplication]
}

/// The state once `stage` has completed successfully.
pub open spec fn after_stage(s: State, stage: Stage) -> State {
    match stage {
        Stage::UpdateDependencies => State { dependencies_updated: true, ..s },
        Stage::BuildDependencies => State { dependencies_built: true, ..s },
        Stage::BuildApplication => State { application_built: true, ..s },
    }
}

impl State {
    /// The stages that a full build runs from this state.
    pub fn build_stages(&self) -> (r: Vec<Stage>)
        ensures
            r@ == planned_stages(*self),
    {
        let mut r: Vec<Stage> = Vec::new();
        if !self.dependencies_updated {
            r.push(Stage::UpdateDependencies);
        }
        if !self.dependencies_built {
            r.push(Stage::BuildDependencies);
        }
        r.push(Stage::BuildApplication);
        assert(r@ =~= planned_stages(*self));
        r
    }

    /// Records that `stage` completed successfully.
    pub fn complete_stage(&mut self, stage: Stage)
        ensures
            *final(self) == after_stage(*old(self), stage),
    {
        match stage {
            Stage::UpdateDependencies => self.dependencies_updated = true,
            Stage::BuildDependencies => self.dependencies_built = true,
            Stage::BuildApplication => self.application_built = true,
        }
    }

    /// Records how running `stage` went: a stage whose tool failed is not
    /// recorded, and progress made before it is kept.
    pub fn finish_stage(&mut self, stage: Stage, succeeded: bool)
        ensures
            succeeded ==> *final(self) == after_stage(*old(self), stage),
            !succeeded ==> *final(self) == *old(self),
    {
        if succeeded {
            self.complete_stage(stage);
        }
    }

    /// Whether the application may be run or exported: only once it has
    /// been built.
    pub fn can_run(&self) -> (r: bool)
        ensures
            r == self.application_built,
    {
        self.application_built
    }

    /// Whether `path` is already the active manifest.
    pub fn is_active_manifest(&self, path: &String) -> (r: bool)
        ensures
            r == (opt_view(self.active_manifest) == Some(path@)),
    {
        match &self.active_manifest {
            Some(p) => *p == *path,
            None => false,
        }
    }

    /// Makes `path` the active manifest. Selecting another manifest than the
    /// active one forgets all progress and records the new manifest's content
    /// hash; selecting the active one changes nothing. Returns whether the
    /// selection changed, in which case the build tree is to be removed.
    pub fn set_active_manifest(&mut self, path: String, manifest_content: &[u8]) -> (changed: bool)
        ensures
            changed == (opt_view(old(self).active_manifest) != Some(path@)),
            changed ==> {
                &&& final(self).progress_cleared()
                &&& final(self).active_manifest == Some(path)
                &&& opt_view(final(self).manifest_hash) == Some(
                    hex_of(sha256_of(manifest_content@)),
                )
                &&& final(self).base_dir == old(self).base_dir
            },
            !changed ==> *final(self) == *old(self),
    {
        if self.is_active_manifest(&path) {
            return false;
        }
        self.reset();
        self.active_manifest = Some(path);
        self.manifest_hash = Some(manifest_hash(manifest_content));
        true
    }
}

/// A build runs exactly the stages not recorded as done (and the
/// application), in pipeline order, and none that is recorded as done.
pub proof fn lemma_build_skips_completed_stages(s: State)
    ensures
        planned_stages(s).contains(Stage::UpdateDependencies) == !s.dependencies_updated,
        planned_stages(s).contains(Stage::BuildDependencies) == !s.dependencies_built,
        planned_stages(s).last() == Stage::BuildApplication,
{
    let p = planned_stages(s);
    if s.dependencies_updated {
        assert(!p.contains(Stage::UpdateDependencies)) by {
            if p.contains(Stage::UpdateDependencies) {
                let i = choose|i: int| 0 <= i < p.len() && p[i] == Stage::UpdateDependencies;
                assert(p[i] == Stage::UpdateDependencies);
            }
        }
    } else {
        assert(p[0] == Stage::UpdateDependencies);
    }
    if s.dependencies_built {
        assert(!p.contains(Stage::BuildDependencies)) by {
            if p.contains(Stage::BuildDependencies) {
                let i = choose|i: int| 0 <= i < p.len() && p[i] == Stage::BuildDependencies;
                assert(p[i] == Stage::BuildDependencies);
            }
        }
    } else {
        let k: int = if s.dependencies_updated { 0 } else { 1 };
        assert(p[k] == Stage::BuildDependencies);
    }
}

/// When the manifest's content hash differs from the stored one, progress is
/// reset before any stage runs: the build that follows runs every stage.
pub proof fn lemma_changed_manifest_runs_every_stage(s: State, hash: String)
    requires
        s.hash_changed(hash@),
    ensures
        s.after_manifest_hash(hash).progress_cleared(),
        planned_stages(s.after_manifest_hash(hash)) == seq![
            Stage::UpdateDependencies,
            Stage::BuildDependencies,
            Stage::BuildApplication,
        ],
{
    assert(planned_stages(s.after_manifest_hash(hash)) =~= seq![
        Stage::UpdateDependencies,
        Stage::BuildDependencies,
        Stage::BuildApplication,
    ]);
}

} // verus!
