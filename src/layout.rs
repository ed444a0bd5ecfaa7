//! Where the collection keeps its files below its root:
//! `artists.json`, `albums/{id}/album.json`,
//! `albums/{id}/tracks/full/{n}.flac` and `albums/{id}/tracks/mobile/{n}.mp3`.
use vstd::prelude::*;
use crate::text::{decimal, usize_to_text};

verus! {

/// A path below `base`: the two joined by `/`.
pub open spec fn join_path(base: Seq<char>, part: Seq<char>) -> Seq<char> {
    base + "/"@ + part
}

/// The directory of the album `id` below the collection root `base`.
pub open spec fn album_dir(base: Seq<char>, id: Seq<char>) -> Seq<char> {
    join_path(join_path(base, "albums"@), id)
}

pub open spec fn tracks_dir(album: Seq<char>) -> Seq<char> {
    join_path(album, "tracks"@)
}

/// Where the lossless renditions of an album's tracks go.
pub open spec fn quality_dir(album: Seq<char>) -> Seq<char> {
    join_path(tracks_dir(album), "full"@)
}

/// Where the reduced-bitrate renditions of an album's tracks go.
pub open spec fn mobile_dir(album: Seq<char>) -> Seq<char> {
    join_path(tracks_dir(album), "mobile"@)
}

/// The file name of the lossless rendition of track `n`.
pub open spec fn quality_file(n: usize) -> Seq<char> {
    decimal(n as nat) + ".flac"@
}

/// The file name of the reduced-bitrate rendition of track `n`.
pub open spec fn mobile_file(n: usize) -> Seq<char> {
    decimal(n as nat) + ".mp3"@
}

pub fn join(base: &str, part: &str) -> (r: String)
    ensures
        r@ == join_path(base@, part@),
{
    let mut s = String::from_str(base);
    s.append("/");
    s.append(part);
    s
}

/// The metadata file of an album directory.
pub fn album_file_path(dir: &str) -> (r: String)
    ensures
        r@ == join_path(dir@, "album.json"@),
{
    join(dir, "album.json")
}

/// The artist list of the collection at `base`.
pub fn artists_file_path(base: &str) -> (r: String)
    ensures
        r@ == join_path(base@, "artists.json"@),
{
    join(base, "artists.json")
}

pub fn quality_file_name(n: usize) -> (r: String)
    ensures
        r@ == quality_file(n),
{
    let mut s = usize_to_text(n);
    s.append(".flac");
    s
}

pub fn mobile_file_name(n: usize) -> (r: String)
    ensures
        r@ == mobile_file(n),
{
    let mut s = usize_to_text(n);
    s.append(".mp3");
    s
}

} // verus!
