//! The nested metadata of a served collection: artists that own their
//! albums, albums that own their tracks.
use vstd::prelude::*;

verus! {

/// A moment of change, in seconds.
#[derive(Clone, Copy, PartialEq, Eq, Structural, PartialOrd, Ord, Debug)]
pub struct Timestamp(pub i64);

pub struct Collection {
    pub artists: Vec<Artist>,
}

pub struct Artist {
    pub id: String,
    pub name: String,
    pub picture: Option<String>,
    pub changed: Timestamp,
    pub albums: Vec<Album>,
}

pub struct Album {
    pub id: String,
    pub name: String,
    pub cover_art: Option<String>,
    pub changed: Timestamp,
    pub tracks: Vec<Track>,
}

/// The file names of a track's two renditions.
pub struct TrackFiles {
    pub quality: String,
    pub mobile: String,
}

pub struct Track {
    pub id: String,
    pub num: usize,
    pub name: String,
    pub artist_id: String,
    pub cover_art: Option<String>,
    pub changed: Timestamp,
    pub files: TrackFiles,
}

impl Collection {
    pub fn new(artists: Vec<Artist>) -> (r: Self)
        ensures
            r.artists == artists,
    {
        Collection { artists }
    }
}

impl Artist {
    /// An artist with no picture and no albums.
    pub fn new(id: String, name: String) -> (r: Self)
        ensures
            r.id == id,
            r.name == name,
            r.picture is None,
            r.changed == Timestamp(0),
            r.albums@.len() == 0,
    {
        Self::new_with_albums(id, name, Vec::new())
    }

    pub fn new_with_albums(id: String, name: String, albums: Vec<Album>) -> (r: Self)
        ensures
            r.id == id,
            r.name == name,
            r.picture is None,
            r.changed == Timestamp(0),
            r.albums == albums,
    {
        Artist { id, name, picture: None, changed: Timestamp(0), albums }
    }

    pub fn set_picture(&mut self, picture: String)
        ensures
            final(self).picture == Some(picture),
            final(self).id == old(self).id,
            final(self).name == old(self).name,
            final(self).changed == old(self).changed,
            final(self).albums == old(self).albums,
    {
        self.picture = Some(picture);
    }
}

impl Album {
    /// An album with no cover art and no tracks.
    pub fn new(id: String, name: String) -> (r: Self)
        ensures
            r.id == id,
            r.name == name,
            r.cover_art is None,
            r.changed == Timestamp(0),
            r.tracks@.len() == 0,
    {
        Self::new_with_tracks(id, name, Vec::new())
    }

    pub fn new_with_tracks(id: String, name: String, tracks: Vec<Track>) -> (r: Self)
        ensures
            r.id == id,
            r.name == name,
            r.cover_art is None,
            r.changed == Timestamp(0),
            r.tracks == tracks,
    {
        Album { id, name, cover_art: None, changed: Timestamp(0), tracks }
    }

    /// Appends `track`; always succeeds.
    pub fn add_track(&mut self, track: Track) -> (r: Option<()>)
        ensures
            r is Some,
            final(self).tracks@ == old(self).tracks@.push(track),
            final(self).id == old(self).id,
            final(self).name == old(self).name,
            final(self).cover_art == old(self).cover_art,
            final(self).changed == old(self).changed,
    {
        self.tracks.push(track);
        Some(())
    }

    pub fn set_cover_art(&mut self, cover_art: String)
        ensures
            final(self).cover_art == Some(cover_art),
            final(self).id == old(self).id,
            final(self).name == old(self).name,
            final(self).changed == old(self).changed,
            final(self).tracks == old(self).tracks,
    {
        self.cover_art = Some(cover_art);
    }
}

impl TrackFiles {
    pub fn new(quality: String, mobile: String) -> (r: Self)
        ensures
            r.quality == quality,
            r.mobile == mobile,
    {
        TrackFiles { quality, mobile }
    }
}

impl Track {
    /// A track with no cover art of its own.
    pub fn new(id: String, num: usize, name: String, artist_id: String, files: TrackFiles) -> (r: Self)
        ensures
            r.id == id,
            r.num == num,
            r.name == name,
            r.artist_id == artist_id,
            r.cover_art is None,
            r.changed == Timestamp(0),
            r.files == files,
    {
        Track { id, num, name, artist_id, cover_art: None, changed: Timestamp(0), files }
    }

    pub fn set_cover_art(&mut self, cover_art: String)
        ensures
            final(self).cover_art == Some(cover_art),
            final(self).id == old(self).id,
            final(self).num == old(self).num,
            final(self).name == old(self).name,
            final(self).artist_id == old(self).artist_id,
            final(self).changed == old(self).changed,
            final(self).files == old(self).files,
    {
        self.cover_art = Some(cover_art);
    }
}

} // verus!
