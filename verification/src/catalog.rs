//! The catalog data model and the remote API's response envelope.
//!
//! The remote wraps every JSON response in `{code, data}`; `code != 0` is an
//! in-band rejection, distinct from a transport failure.  The shell decodes
//! the JSON shape and hands the envelope's parts here as plain values; this
//! module decides what the envelope means.

use vstd::prelude::*;
use crate::errors::MsmdError;

verus! {

/// One entry of the catalog: an album's remote id and display name.
#[derive(Clone, Debug, PartialEq)]
pub struct AlbumSummary {
    pub cid: String,
    pub name: String,
}

/// A song as the album detail lists it: remote id and display name.  The
/// song's source URL is not here; the remote exposes it only through the
/// per-song endpoint.
#[derive(Clone, Debug, PartialEq)]
pub struct SongRef {
    pub cid: String,
    pub name: String,
}

impl View for AlbumSummary {
    type V = (Seq<char>, Seq<char>);

    open spec fn view(&self) -> (Seq<char>, Seq<char>) {
        (self.cid@, self.name@)
    }
}

impl View for SongRef {
    type V = (Seq<char>, Seq<char>);

    open spec fn view(&self) -> (Seq<char>, Seq<char>) {
        (self.cid@, self.name@)
    }
}

/// The full detail of one album, persisted as its metadata file.
#[derive(Clone, Debug, PartialEq)]
pub struct AlbumDetail {
    pub cid: String,
    pub name: String,
    pub cover_url: String,
    pub cover_back_url: String,
    pub songs: Vec<SongRef>,
}

/// The URL of the remote's album-list endpoint.
pub fn albums_endpoint() -> (r: String)
    ensures
        r@ == "https://monster-siren.hypergryph.com/api/albums"@,
{
    String::from_str("https://monster-siren.hypergryph.com/api/albums")
}

/// The URL of the remote's detail endpoint for the album with id `cid`.
pub fn album_detail_endpoint(cid: &str) -> (r: String)
    ensures
        r@ == "https://monster-siren.hypergryph.com/api/album/"@ + cid@ + "/detail"@,
{
    String::from_str("https://monster-siren.hypergryph.com/api/album/").concat(cid).concat(
        "/detail",
    )
}

/// The URL of the remote's per-song endpoint for the song with id `cid`.
pub fn song_endpoint(cid: &str) -> (r: String)
    ensures
        r@ == "https://monster-siren.hypergryph.com/api/song/"@ + cid@,
{
    String::from_str("https://monster-siren.hypergryph.com/api/song/").concat(cid)
}

/// Interprets the remote's `{code, data}` envelope: `code != 0` is a
/// rejection carrying that code; `code == 0` without a decoded body is a
/// decode failure; otherwise the body is the answer.
pub fn interpret_envelope<T>(code: i64, data: Option<T>) -> (r: Result<T, MsmdError>)
    ensures
        code != 0 ==> r == Err::<T, MsmdError>(MsmdError::RemoteRejected(code)),
        code == 0 && data is None ==> r == Err::<T, MsmdError>(MsmdError::Decode),
        code == 0 && data is Some ==> r is Ok && r->Ok_0 == data->0,
{
    if code != 0 {
        Err(MsmdError::RemoteRejected(code))
    } else {
        match data {
            Some(value) => Ok(value),
            None => Err(MsmdError::Decode),
        }
    }
}

} // verus!
