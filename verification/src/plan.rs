//! The orchestrator's decisions: which work each pipeline operation plans
//! for an album, given only the durable facts the shell observed (directory
//! state and markers).  Plans are pure values; the shell performs them and
//! reports outcomes back.

use vstd::prelude::*;
use crate::catalog::AlbumDetail;
use crate::catalog::SongRef;
use crate::errors::MsmdError;
use crate::layout::cover_back_name;
use crate::layout::cover_front_name;
use crate::layout::song_file_name;
use crate::sanitize::spec_sanitize;
use crate::tracker::Markers;
use crate::tracker::Stage;

verus! {

/// What the shell observed of an album's path under the mirror root.
#[derive(Clone, Copy, Debug, PartialEq, Eq, Structural)]
pub enum DirState {
    /// No entry of that name exists.
    Absent,
    /// A directory of that name exists.
    Directory,
    /// A non-directory entry of that name exists: a collision.
    NotDirectory,
}

/// The durable facts observed for one catalog entry before materializing it.
#[derive(Clone, Copy, Debug, PartialEq, Eq, Structural)]
pub struct ObservedAlbum {
    pub dir: DirState,
    pub init_done: bool,
}

/// The decision for one catalog entry during directory materialization.
#[derive(Clone, Copy, Debug, PartialEq, Eq, Structural)]
pub enum MaterializeAction {
    /// Create the directory, fetch the album detail, write the metadata
    /// file, then commit the init marker.
    CreateDirAndInit,
    /// The directory exists but init never finished: fetch the album detail,
    /// write the metadata file, then commit the init marker.
    InitOnly,
    /// The init marker is present: nothing to do.
    SkipDone,
    /// The path collides with a non-directory entry: report the album and
    /// continue with the others.
    ReportNotADirectory,
}

/// The decision for one catalog entry, as a function of what was observed.
pub open spec fn spec_materialize_action(o: ObservedAlbum) -> MaterializeAction {
    match o.dir {
        DirState::NotDirectory => MaterializeAction::ReportNotADirectory,
        DirState::Absent => MaterializeAction::CreateDirAndInit,
        DirState::Directory => if o.init_done {
            MaterializeAction::SkipDone
        } else {
            MaterializeAction::InitOnly
        },
    }
}

/// Decides one catalog entry of a materialization run.
pub fn plan_album_materialize(observed: ObservedAlbum) -> (r: MaterializeAction)
    ensures
        r == spec_materialize_action(observed),
{
    match observed.dir {
        DirState::NotDirectory => MaterializeAction::ReportNotADirectory,
        DirState::Absent => MaterializeAction::CreateDirAndInit,
        DirState::Directory => {
            if observed.init_done {
                MaterializeAction::SkipDone
            } else {
                MaterializeAction::InitOnly
            }
        },
    }
}

/// Plans a whole materialization run.
///
/// `catalog_present` says whether a catalog snapshot exists; without one the
/// operation fails its precondition and plans nothing, so no filesystem
/// write can follow.  With one, every catalog entry receives its own
/// decision: a collision on one album never touches the decisions of the
/// others.
pub fn plan_materialize(catalog_present: bool, observed: &Vec<ObservedAlbum>) -> (r: Result<
    Vec<MaterializeAction>,
    MsmdError,
>)
    ensures
        !catalog_present ==> r == Err::<Vec<MaterializeAction>, MsmdError>(
            MsmdError::PreconditionFailed,
        ),
        catalog_present ==> (r matches Ok(actions) && actions@.len() == observed@.len()
            && (forall|i: int|
            0 <= i < observed@.len() ==> actions@[i] == spec_materialize_action(observed@[i]))),
{
    if !catalog_present {
        return Err(MsmdError::PreconditionFailed);
    }
    let mut actions: Vec<MaterializeAction> = Vec::new();
    let n = observed.len();
    let mut i: usize = 0;
    while i < n
        invariant
            n == observed@.len(),
            i <= n,
            actions@.len() == i,
            forall|j: int| 0 <= j < i ==> actions@[j] == spec_materialize_action(observed@[j]),
        decreases n - i,
    {
        actions.push(plan_album_materialize(observed[i]));
        i = i + 1;
    }
    Ok(actions)
}

/// One binary asset fetch: the URL to get and the file name to write inside
/// the album's directory.
#[derive(Clone, Debug, PartialEq)]
pub struct DownloadTask {
    pub url: String,
    pub dest_name: String,
}

impl View for DownloadTask {
    type V = (Seq<char>, Seq<char>);

    open spec fn view(&self) -> (Seq<char>, Seq<char>) {
        (self.url@, self.dest_name@)
    }
}

/// The shape of a stage's decision, abstracted from the tasks it carries:
/// what the cover and song planners decide for an album.
#[derive(Clone, Copy, Debug, PartialEq, Eq, Structural)]
pub enum StageDecision {
    /// The stage's marker is present: no request, no write.
    Skip,
    /// The metadata file is missing: the init stage must run first.
    NeedMetadata,
    /// The stage's assets are fetched.
    Fetch,
}

/// The decision for an asset stage (covers or songs), as a function of the
/// observed marker and whether the metadata file is present.
pub open spec fn spec_stage_decision(done: bool, meta_present: bool) -> StageDecision {
    if done {
        StageDecision::Skip
    } else if !meta_present {
        StageDecision::NeedMetadata
    } else {
        StageDecision::Fetch
    }
}

/// The decision for one album's cover stage.
pub enum CoversPlan {
    /// The covers marker is present: nothing to do, no request is made.
    SkipDone,
    /// The metadata file is missing: the init stage must run first.
    MissingMetadata,
    /// Fetch both covers; the marker may be committed only if both succeed.
    Fetch(Vec<DownloadTask>),
}

/// Plans one album's cover stage.
///
/// A present marker wins outright — the metadata is not even consulted.
/// Otherwise missing metadata is a failed precondition, and with metadata
/// the plan is exactly the two cover tasks, front then back.
pub fn plan_covers(covers_done: bool, meta: &Option<AlbumDetail>) -> (r: CoversPlan)
    ensures
        (r is SkipDone) == (spec_stage_decision(covers_done, meta is Some) is Skip),
        (r is MissingMetadata) == (spec_stage_decision(covers_done, meta is Some) is NeedMetadata),
        (r is Fetch) == (spec_stage_decision(covers_done, meta is Some) is Fetch),
        covers_done ==> r is SkipDone,
        !covers_done && meta is None ==> r is MissingMetadata,
        !covers_done && meta is Some ==> (r matches CoversPlan::Fetch(tasks) && tasks@.len() == 2
            && tasks@[0]@ == (meta->0.cover_url@, "cover-front"@) && tasks@[1]@ == (
        meta->0.cover_back_url@,
        "cover-back"@,
        )),
{
    if covers_done {
        return CoversPlan::SkipDone;
    }
    match meta {
        None => CoversPlan::MissingMetadata,
        Some(detail) => {
            let mut tasks: Vec<DownloadTask> = Vec::new();
            tasks.push(
                DownloadTask { url: detail.cover_url.clone(), dest_name: cover_front_name() },
            );
            tasks.push(
                DownloadTask { url: detail.cover_back_url.clone(), dest_name: cover_back_name() },
            );
            CoversPlan::Fetch(tasks)
        },
    }
}

/// The decision for one album's song stage.
pub enum SongsPlan {
    /// The songs marker is present: nothing to do, no request is made.
    SkipDone,
    /// The metadata file is missing: the init stage must run first.
    MissingMetadata,
    /// Resolve every listed song through the per-song endpoint and fetch it;
    /// the marker may be committed only if every song succeeds.
    Resolve(Vec<SongRef>),
}

/// Plans one album's song stage.
///
/// When the marker is absent the plan names every song of the metadata —
/// never a subset, whatever bytes an interrupted run may have left on disk:
/// bytes without a marker are disposable.
pub fn plan_songs(songs_done: bool, meta: &Option<AlbumDetail>) -> (r: SongsPlan)
    ensures
        (r is SkipDone) == (spec_stage_decision(songs_done, meta is Some) is Skip),
        (r is MissingMetadata) == (spec_stage_decision(songs_done, meta is Some) is NeedMetadata),
        (r is Resolve) == (spec_stage_decision(songs_done, meta is Some) is Fetch),
        songs_done ==> r is SkipDone,
        !songs_done && meta is None ==> r is MissingMetadata,
        !songs_done && meta is Some ==> (r matches SongsPlan::Resolve(songs) && songs@.len()
            == meta->0.songs@.len() && (forall|i: int|
            0 <= i < songs@.len() ==> songs@[i]@ == meta->0.songs@[i]@)),
{
    if songs_done {
        return SongsPlan::SkipDone;
    }
    match meta {
        None => SongsPlan::MissingMetadata,
        Some(detail) => {
            let mut songs: Vec<SongRef> = Vec::new();
            let n = detail.songs.len();
            let mut i: usize = 0;
            while i < n
                invariant
                    n == detail.songs@.len(),
                    i <= n,
                    songs@.len() == i,
                    forall|j: int| 0 <= j < i ==> songs@[j]@ == detail.songs@[j]@,
                decreases n - i,
            {
                let song = &detail.songs[i];
                songs.push(SongRef { cid: song.cid.clone(), name: song.name.clone() });
                i = i + 1;
            }
            SongsPlan::Resolve(songs)
        },
    }
}

/// Builds the download task for one song from the per-song endpoint's
/// answer: a rejection or an undecodable body is that song's error; a good
/// answer yields a task for the source URL, written to the sanitized song
/// file name.
pub fn resolve_song_task(song_name: &str, code: i64, source_url: Option<String>) -> (r: Result<
    DownloadTask,
    MsmdError,
>)
    ensures
        code != 0 ==> r == Err::<DownloadTask, MsmdError>(MsmdError::RemoteRejected(code)),
        code == 0 && source_url is None ==> r == Err::<DownloadTask, MsmdError>(MsmdError::Decode),
        code == 0 && source_url is Some ==> (r matches Ok(task) && task@ == (
            source_url->0@,
            spec_sanitize(song_name@) + ".wav"@,
        )),
{
    match crate::catalog::interpret_envelope(code, source_url) {
        Ok(url) => Ok(DownloadTask { url, dest_name: song_file_name(song_name) }),
        Err(e) => Err(e),
    }
}

/// Whether every outcome of a batch is a success.
pub open spec fn spec_all_ok(outcomes: Seq<bool>) -> bool {
    forall|i: int| 0 <= i < outcomes.len() ==> outcomes[i]
}

/// Decides whether a stage's marker may be committed: exactly when every
/// task of the batch succeeded.  Partial success commits nothing, so the
/// next run retries the whole stage.
pub fn decide_commit(outcomes: &Vec<bool>) -> (r: bool)
    ensures
        r == spec_all_ok(outcomes@),
{
    let n = outcomes.len();
    let mut i: usize = 0;
    while i < n
        invariant
            n == outcomes@.len(),
            i <= n,
            forall|j: int| 0 <= j < i ==> outcomes@[j],
        decreases n - i,
    {
        if !outcomes[i] {
            return false;
        }
        i = i + 1;
    }
    true
}

/// Concludes a stage from its batch outcomes: the marker is committed
/// exactly when every task succeeded, and otherwise the markers are left
/// untouched, so the next run plans the whole stage again.  Returns the new
/// marker set and whether the commit happened.
pub fn conclude_stage(markers: &Markers, stage: Stage, outcomes: &Vec<bool>) -> (r: (
    Markers,
    bool,
))
    ensures
        spec_all_ok(outcomes@) ==> r.0 == markers.spec_commit(stage) && r.1,
        !spec_all_ok(outcomes@) ==> r.0 == *markers && !r.1,
{
    if decide_commit(outcomes) {
        (markers.commit(stage), true)
    } else {
        (*markers, false)
    }
}

/// One album's durable state, as far as the pipeline's decisions read it:
/// its path's state and its markers.  Bytes on disk are deliberately not
/// part of it — without a marker they earn no credit.
#[derive(Clone, Copy, Debug, PartialEq, Eq, Structural)]
pub struct AlbumDurable {
    pub dir: DirState,
    pub markers: Markers,
}

/// The durable state after a stage ran to full success and committed its
/// marker: init also leaves the directory in place.
pub open spec fn spec_apply_success(st: AlbumDurable, stage: Stage) -> AlbumDurable {
    AlbumDurable {
        dir: if stage is Init {
            DirState::Directory
        } else {
            st.dir
        },
        markers: st.markers.spec_commit(stage),
    }
}

/// Idempotence of the pipeline at the decision layer: after a stage ran to
/// full success, re-observing the album finds its marker present, so the
/// materialize decision is a skip, and the cover and song stages decide a
/// skip whatever the metadata looks like — no download task, no write, no
/// request.  A plan is a pure value, so a run of skips leaves the on-disk
/// state identical.
pub proof fn lemma_stage_idempotent(st: AlbumDurable)
    ensures
        spec_materialize_action(
            ObservedAlbum {
                dir: spec_apply_success(st, Stage::Init).dir,
                init_done: spec_apply_success(st, Stage::Init).markers.init,
            },
        ) == MaterializeAction::SkipDone,
        forall|meta_present: bool|
            spec_stage_decision(spec_apply_success(st, Stage::Covers).markers.covers, meta_present)
                == StageDecision::Skip,
        forall|meta_present: bool|
            spec_stage_decision(spec_apply_success(st, Stage::Songs).markers.songs, meta_present)
                == StageDecision::Skip,
{
}

/// No partial credit: if any task of a stage's batch failed, the commit
/// decision is negative, so the marker stays absent and the next run decides
/// to fetch the full stage again — every song, both covers — however many
/// asset bytes the interrupted run already wrote.
pub proof fn lemma_no_partial_credit(outcomes: Seq<bool>, st: AlbumDurable, stage: Stage)
    requires
        exists|i: int| 0 <= i < outcomes.len() && !outcomes[i],
        !st.markers.spec_has(stage),
    ensures
        !spec_all_ok(outcomes),
        spec_stage_decision(st.markers.spec_has(stage), true) == StageDecision::Fetch,
{
}

} // verus!
