use msmd::catalog::{
    album_detail_endpoint, albums_endpoint, interpret_envelope, song_endpoint, AlbumDetail,
    SongRef,
};
use msmd::errors::MsmdError;
use msmd::plan::{
    conclude_stage, decide_commit, plan_album_materialize, plan_covers, plan_materialize,
    plan_songs, resolve_song_task, CoversPlan, DirState, MaterializeAction, ObservedAlbum,
    SongsPlan,
};
use msmd::tracker::{needs_stage, Markers, Stage};

fn sample_detail() -> AlbumDetail {
    AlbumDetail {
        cid: String::from("0001"),
        name: String::from("First Album"),
        cover_url: String::from("https://example.test/front.jpg"),
        cover_back_url: String::from("https://example.test/back.jpg"),
        songs: vec![
            SongRef { cid: String::from("s1"), name: String::from("Opening") },
            SongRef { cid: String::from("s2"), name: String::from("Interlude") },
            SongRef { cid: String::from("s3"), name: String::from("Finale") },
        ],
    }
}

#[test]
fn endpoints_follow_the_remote_api() {
    assert_eq!(albums_endpoint(), "https://monster-siren.hypergryph.com/api/albums");
    assert_eq!(
        album_detail_endpoint("0001"),
        "https://monster-siren.hypergryph.com/api/album/0001/detail"
    );
    assert_eq!(song_endpoint("s9"), "https://monster-siren.hypergryph.com/api/song/s9");
}

#[test]
fn envelope_ok_yields_body() {
    assert_eq!(interpret_envelope(0, Some(42u64)), Ok(42u64));
}

#[test]
fn envelope_nonzero_code_is_rejection() {
    assert_eq!(
        interpret_envelope::<u64>(3, Some(42u64)),
        Err(MsmdError::RemoteRejected(3))
    );
    assert_eq!(
        interpret_envelope::<u64>(-1, None),
        Err(MsmdError::RemoteRejected(-1))
    );
}

#[test]
fn envelope_missing_body_is_decode_error() {
    assert_eq!(interpret_envelope::<u64>(0, None), Err(MsmdError::Decode));
}

#[test]
fn materialize_without_catalog_is_precondition_failure() {
    let observed = vec![ObservedAlbum { dir: DirState::Absent, init_done: false }];
    assert_eq!(
        plan_materialize(false, &observed),
        Err(MsmdError::PreconditionFailed)
    );
}

#[test]
fn materialize_collision_is_reported_and_others_continue() {
    let observed = vec![
        ObservedAlbum { dir: DirState::Absent, init_done: false },
        ObservedAlbum { dir: DirState::NotDirectory, init_done: false },
        ObservedAlbum { dir: DirState::Directory, init_done: false },
        ObservedAlbum { dir: DirState::Directory, init_done: true },
    ];
    let actions = plan_materialize(true, &observed).unwrap();
    assert_eq!(
        actions,
        vec![
            MaterializeAction::CreateDirAndInit,
            MaterializeAction::ReportNotADirectory,
            MaterializeAction::InitOnly,
            MaterializeAction::SkipDone,
        ]
    );
}

#[test]
fn materialize_single_decisions() {
    assert_eq!(
        plan_album_materialize(ObservedAlbum { dir: DirState::NotDirectory, init_done: true }),
        MaterializeAction::ReportNotADirectory
    );
    assert_eq!(
        plan_album_materialize(ObservedAlbum { dir: DirState::Absent, init_done: false }),
        MaterializeAction::CreateDirAndInit
    );
}

#[test]
fn covers_plan_lists_both_covers() {
    let meta = Some(sample_detail());
    match plan_covers(false, &meta) {
        CoversPlan::Fetch(tasks) => {
            assert_eq!(tasks.len(), 2);
            assert_eq!(tasks[0].url, "https://example.test/front.jpg");
            assert_eq!(tasks[0].dest_name, "cover-front");
            assert_eq!(tasks[1].url, "https://example.test/back.jpg");
            assert_eq!(tasks[1].dest_name, "cover-back");
        }
        _ => panic!("expected a fetch plan"),
    }
}

#[test]
fn covers_plan_skips_when_marker_present() {
    assert!(matches!(plan_covers(true, &None), CoversPlan::SkipDone));
    assert!(matches!(
        plan_covers(true, &Some(sample_detail())),
        CoversPlan::SkipDone
    ));
}

#[test]
fn covers_plan_requires_metadata() {
    assert!(matches!(plan_covers(false, &None), CoversPlan::MissingMetadata));
}

#[test]
fn songs_plan_lists_every_song() {
    let meta = Some(sample_detail());
    match plan_songs(false, &meta) {
        SongsPlan::Resolve(songs) => {
            assert_eq!(songs.len(), 3);
            assert_eq!(songs[0].cid, "s1");
            assert_eq!(songs[1].name, "Interlude");
            assert_eq!(songs[2].cid, "s3");
        }
        _ => panic!("expected a resolve plan"),
    }
}

#[test]
fn songs_plan_skips_when_marker_present() {
    assert!(matches!(plan_songs(true, &Some(sample_detail())), SongsPlan::SkipDone));
}

#[test]
fn songs_plan_requires_metadata() {
    assert!(matches!(plan_songs(false, &None), SongsPlan::MissingMetadata));
}

#[test]
fn resolve_song_builds_task_from_source_url() {
    let r = resolve_song_task("Opening", 0, Some(String::from("https://example.test/a.wav")));
    let task = r.unwrap();
    assert_eq!(task.url, "https://example.test/a.wav");
    assert_eq!(task.dest_name, "Opening.wav");
}

#[test]
fn resolve_song_sanitizes_destination() {
    let r = resolve_song_task("a/b: c", 0, Some(String::from("u")));
    let task = r.unwrap();
    assert_eq!(task.dest_name, "a_b: c.wav");
}

#[test]
fn resolve_song_propagates_remote_rejection() {
    assert_eq!(
        resolve_song_task("x", 5, Some(String::from("u"))),
        Err(MsmdError::RemoteRejected(5))
    );
    assert_eq!(resolve_song_task("x", 0, None), Err(MsmdError::Decode));
}

#[test]
fn commit_decision_requires_every_success() {
    assert!(decide_commit(&vec![]));
    assert!(decide_commit(&vec![true, true, true]));
    assert!(!decide_commit(&vec![true, false, true]));
    assert!(!decide_commit(&vec![false]));
}

#[test]
fn partial_success_commits_no_marker() {
    // Two of three songs succeeded before an interruption: the marker stays
    // absent and the next plan names all three songs again.
    let markers = Markers::none();
    let outcomes = vec![true, true, false];
    let (after, committed) = conclude_stage(&markers, Stage::Songs, &outcomes);
    assert!(!committed);
    assert_eq!(after, markers);
    assert!(needs_stage(&after, Stage::Songs));
    match plan_songs(after.songs, &Some(sample_detail())) {
        SongsPlan::Resolve(songs) => assert_eq!(songs.len(), 3),
        _ => panic!("expected a resolve plan"),
    }
}

#[test]
fn full_success_commits_marker_and_second_run_skips() {
    let markers = Markers::none();
    let (after, committed) = conclude_stage(&markers, Stage::Covers, &vec![true, true]);
    assert!(committed);
    assert!(after.covers);
    assert!(!after.init);
    assert!(!after.songs);
    assert!(!needs_stage(&after, Stage::Covers));
    assert!(matches!(plan_covers(after.covers, &Some(sample_detail())), CoversPlan::SkipDone));
}

#[test]
fn marker_commit_leaves_other_stages_alone() {
    let m = Markers::none().commit(Stage::Init);
    assert!(m.init && !m.covers && !m.songs);
    assert!(!needs_stage(&m, Stage::Init));
    assert!(needs_stage(&m, Stage::Covers));
    assert!(needs_stage(&m, Stage::Songs));
}
