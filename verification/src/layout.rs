//! The on-disk layout of the mirror: the names of the snapshot file, the
//! per-album metadata file, the cover assets, the per-song audio files and
//! the stage markers.  Every path the shell writes under the mirror root is
//! derived here, from sanitized names only.

use vstd::prelude::*;
use crate::sanitize::sanitize_name;
use crate::sanitize::spec_sanitize;
use crate::tracker::Stage;

verus! {

/// Name of the catalog snapshot file at the mirror root.
pub fn catalog_snapshot_name() -> (r: String)
    ensures
        r@ == ".albums.json"@,
{
    String::from_str(".albums.json")
}

/// Name of the metadata file inside an album directory.
pub fn metadata_file_name() -> (r: String)
    ensures
        r@ == ".meta.json"@,
{
    String::from_str(".meta.json")
}

/// Name of the front cover asset inside an album directory.
pub fn cover_front_name() -> (r: String)
    ensures
        r@ == "cover-front"@,
{
    String::from_str("cover-front")
}

/// Name of the back cover asset inside an album directory.
pub fn cover_back_name() -> (r: String)
    ensures
        r@ == "cover-back"@,
{
    String::from_str("cover-back")
}

/// The marker file name of `stage`.
pub open spec fn spec_marker_file_name(stage: Stage) -> Seq<char> {
    match stage {
        Stage::Init => ".done-init"@,
        Stage::Covers => ".done-covers"@,
        Stage::Songs => ".done-songs"@,
    }
}

/// Name of the zero-byte sentinel that records `stage` as done.
pub fn marker_file_name(stage: Stage) -> (r: String)
    ensures
        r@ == spec_marker_file_name(stage),
{
    match stage {
        Stage::Init => String::from_str(".done-init"),
        Stage::Covers => String::from_str(".done-covers"),
        Stage::Songs => String::from_str(".done-songs"),
    }
}

/// The directory name of an album: its catalog name, sanitized.
pub fn album_dir_name(album_name: &str) -> (r: String)
    ensures
        r@ == spec_sanitize(album_name@),
{
    sanitize_name(album_name)
}

/// The audio file name of a song: its catalog name, sanitized, with the
/// `.wav` extension.
pub fn song_file_name(song_name: &str) -> (r: String)
    ensures
        r@ == spec_sanitize(song_name@) + ".wav"@,
{
    sanitize_name(song_name).concat(".wav")
}

} // verus!
