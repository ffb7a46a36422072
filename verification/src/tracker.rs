//! Completion tracking: stages, marker sets, and the done / not-done policy.
//!
//! A marker is a durable boolean fact per album and stage; its mere presence
//! means the stage finished successfully.  The tracker is pure policy over
//! those facts: it never touches the filesystem itself.

use vstd::prelude::*;

verus! {

/// One unit of idempotent work per album.
#[derive(Clone, Copy, Debug, PartialEq, Eq, Structural)]
pub enum Stage {
    /// Album directory created and metadata written.
    Init,
    /// Both cover images fetched.
    Covers,
    /// Every song fetched.
    Songs,
}

/// The markers observed for one album: which stages are durably done.
#[derive(Clone, Copy, Debug, PartialEq, Eq, Structural)]
pub struct Markers {
    pub init: bool,
    pub covers: bool,
    pub songs: bool,
}

impl Markers {
    /// Whether the marker for `stage` is present.
    pub open spec fn spec_has(&self, stage: Stage) -> bool {
        match stage {
            Stage::Init => self.init,
            Stage::Covers => self.covers,
            Stage::Songs => self.songs,
        }
    }

    /// The marker set after `stage`'s marker is committed.
    pub open spec fn spec_commit(&self, stage: Stage) -> Markers {
        match stage {
            Stage::Init => Markers { init: true, ..*self },
            Stage::Covers => Markers { covers: true, ..*self },
            Stage::Songs => Markers { songs: true, ..*self },
        }
    }

    /// A fresh album: no stage done yet.
    pub fn none() -> (r: Markers)
        ensures
            !r.init && !r.covers && !r.songs,
    {
        Markers { init: false, covers: false, songs: false }
    }

    /// Whether the marker for `stage` is present.
    pub fn has(&self, stage: Stage) -> (r: bool)
        ensures
            r == self.spec_has(stage),
    {
        match stage {
            Stage::Init => self.init,
            Stage::Covers => self.covers,
            Stage::Songs => self.songs,
        }
    }

    /// The marker set after `stage`'s marker is committed; the shell mirrors
    /// this by creating the sentinel file.
    pub fn commit(&self, stage: Stage) -> (r: Markers)
        ensures
            r == self.spec_commit(stage),
    {
        match stage {
            Stage::Init => Markers { init: true, covers: self.covers, songs: self.songs },
            Stage::Covers => Markers { init: self.init, covers: true, songs: self.songs },
            Stage::Songs => Markers { init: self.init, covers: self.covers, songs: true },
        }
    }
}

/// Whether `stage` still needs work for an album with markers `markers`:
/// exactly when its marker is absent.
pub fn needs_stage(markers: &Markers, stage: Stage) -> (r: bool)
    ensures
        r == !markers.spec_has(stage),
{
    !markers.has(stage)
}

/// Committing a stage settles it: afterwards the stage needs no work, and the
/// other stages' markers are untouched.  Re-running the pipeline therefore
/// skips the stage instead of repeating it.
pub proof fn lemma_commit_settles_stage(m: Markers, stage: Stage)
    ensures
        m.spec_commit(stage).spec_has(stage),
        forall|other: Stage|
            other != stage ==> m.spec_commit(stage).spec_has(other) == m.spec_has(other),
{
}

} // verus!
