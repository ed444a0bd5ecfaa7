//! The rows that the serving side hands out for artists, albums and tracks.
use vstd::prelude::*;

verus! {

/// The picture shown for an artist that has none.
pub const DEFAULT_ARTIST_IMAGE: &'static str = "/images/artist_default.png";

/// The picture shown for an album that has none.
pub const DEFAULT_ALBUM_IMAGE: &'static str = "/images/album_default.png";

pub struct Artist {
    pub id: String,
    pub name: String,
    pub picture: String,
}

pub struct Album {
    pub id: String,
    pub name: String,
    pub picture: String,
}

pub struct Track {
    pub id: String,
    pub num: i32,
    pub name: String,
    pub artist_id: String,
    pub album_id: String,
    pub album_name: String,
    pub file_quality: String,
    pub file_mobile: String,
}

/// An album of the full album list, with the name of its artist.
pub struct FetchAllAlbumItem {
    album: Album,
    artist_name: String,
}

/// The stored picture, or `default` where none is stored.
pub open spec fn picture_or(stored: Option<String>, default: Seq<char>) -> Seq<char> {
    match stored {
        Some(p) => p@,
        None => default,
    }
}

fn picture_or_default(stored: Option<String>, default: &str) -> (r: String)
    ensures
        r@ == picture_or(stored, default@),
{
    match stored {
        Some(p) => p,
        None => String::from_str(default),
    }
}

impl Artist {
    /// The artist of a stored row; a row without a picture gets
    /// `DEFAULT_ARTIST_IMAGE`.
    pub fn from_row(id: String, name: String, picture: Option<String>) -> (r: Self)
        ensures
            r.id == id,
            r.name == name,
            r.picture@ == picture_or(picture, DEFAULT_ARTIST_IMAGE@),
    {
        Artist { id, name, picture: picture_or_default(picture, DEFAULT_ARTIST_IMAGE) }
    }
}

impl Album {
    /// The album of a stored row; a row without a picture gets
    /// `DEFAULT_ALBUM_IMAGE`.
    pub fn from_row(id: String, name: String, picture: Option<String>) -> (r: Self)
        ensures
            r.id == id,
            r.name == name,
            r.picture@ == picture_or(picture, DEFAULT_ALBUM_IMAGE@),
    {
        Album { id, name, picture: picture_or_default(picture, DEFAULT_ALBUM_IMAGE) }
    }
}

impl FetchAllAlbumItem {
    pub fn new(album: Album, artist_name: String) -> (r: Self)
        ensures
            r.album_view() == album,
            r.artist_name_view() == artist_name,
    {
        FetchAllAlbumItem { album, artist_name }
    }

    pub closed spec fn album_view(&self) -> Album {
        self.album
    }

    pub closed spec fn artist_name_view(&self) -> String {
        self.artist_name
    }

    pub fn album(&self) -> (r: &Album)
        ensures
            *r == self.album_view(),
    {
        &self.album
    }

    pub fn artist_name(&self) -> (r: &str)
        ensures
            r@ == self.artist_name_view()@,
    {
        self.artist_name.as_str()
    }
}

} // verus!
