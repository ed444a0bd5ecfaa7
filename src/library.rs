//! A served collection: one `collection.json` below its root that holds the
//! nested metadata, and a `tracks` directory with the track files.
use vstd::prelude::*;
use crate::layout::{join, join_path};
use crate::metadata;
use crate::metadata::{Album, Artist};
use crate::text::text_eq;

verus! {

pub struct Collection {
    base: String,
    metadata: metadata::Collection,
}

/// An artist of `artists` is named `name`.
pub open spec fn has_named(artists: Seq<Artist>, name: Seq<char>) -> bool {
    exists|i: int| 0 <= i < artists.len() && #[trigger] artists[i].name@ == name
}

/// An album of `albums` is named `name`.
pub open spec fn has_album_named(albums: Seq<Album>, name: Seq<char>) -> bool {
    exists|i: int| 0 <= i < albums.len() && #[trigger] albums[i].name@ == name
}

impl Collection {
    pub closed spec fn base_view(&self) -> Seq<char> {
        self.base@
    }

    pub closed spec fn artists_view(&self) -> Seq<Artist> {
        self.metadata.artists@
    }

    /// The collection at `base` with the metadata read from its
    /// `collection.json`, or with none.
    pub fn from_metadata(base: String, metadata: metadata::Collection) -> (r: Self)
        ensures
            r.base_view() == base@,
            r.artists_view() == metadata.artists@,
    {
        Collection { base, metadata }
    }

    pub fn base(&self) -> (r: &str)
        ensures
            r@ == self.base_view(),
    {
        self.base.as_str()
    }

    pub fn metadata(&self) -> (r: &metadata::Collection)
        ensures
            r.artists@ == self.artists_view(),
    {
        &self.metadata
    }

    /// Nothing to check yet: every collection is accepted.
    pub fn verify(&self) {
    }

    /// The position of the first artist named `artist_name`; when there is
    /// none, the artist that `insert_fn` makes is appended and its position
    /// returned.
    pub fn get_or_insert_artist<F>(&mut self, artist_name: &str, insert_fn: F) -> (r: usize) where
        F: FnOnce() -> Artist,

        requires
            call_requires(insert_fn, ()),
        ensures
            final(self).base_view() == old(self).base_view(),
            has_named(old(self).artists_view(), artist_name@) ==> {
                &&& final(self).artists_view() == old(self).artists_view()
                &&& r < old(self).artists_view().len()
                &&& old(self).artists_view()[r as int].name@ == artist_name@
                &&& forall|j: int|
                    0 <= j < r ==> #[trigger] old(self).artists_view()[j].name@ != artist_name@
            },
            !has_named(old(self).artists_view(), artist_name@) ==> {
                &&& r == old(self).artists_view().len()
                &&& final(self).artists_view() == old(self).artists_view().push(
                    final(self).artists_view()[r as int],
                )
                &&& call_ensures(insert_fn, (), final(self).artists_view()[r as int])
            },
    {
        let mut i: usize = 0;
        while i < self.metadata.artists.len()
            invariant
                i <= self.metadata.artists@.len(),
                forall|j: int|
                    0 <= j < i ==> #[trigger] self.metadata.artists@[j].name@ != artist_name@,
            decreases self.metadata.artists@.len() - i,
        {
            if text_eq(self.metadata.artists[i].name.as_str(), artist_name) {
                return i;
            }
            i = i + 1;
        }
        let artist = insert_fn();
        let index = self.metadata.artists.len();
        self.metadata.artists.push(artist);
        index
    }

    /// The artist at `artist_index`, or `None` past the end.
    pub fn artist_by_index(&self, artist_index: usize) -> (r: Option<&Artist>)
        ensures
            r is Some <==> artist_index < self.artists_view().len(),
            r matches Some(a) ==> *a == self.artists_view()[artist_index as int],
    {
        if artist_index < self.metadata.artists.len() {
            Some(&self.metadata.artists[artist_index])
        } else {
            None
        }
    }

    /// Whether the artist at `artist_index` has an album named `album_name`;
    /// `false` when there is no such artist.
    #[verifier::loop_isolation(false)]
    pub fn album_with_name_exists(&self, artist_index: usize, album_name: &str) -> (r: bool)
        ensures
            r == (artist_index < self.artists_view().len() && has_album_named(
                self.artists_view()[artist_index as int].albums@,
                album_name@,
            )),
    {
        if artist_index >= self.metadata.artists.len() {
            return false;
        }
        let albums = &self.metadata.artists[artist_index].albums;
        let mut i: usize = 0;
        while i < albums.len()
            invariant
                i <= albums@.len(),
                forall|j: int| 0 <= j < i ==> #[trigger] albums@[j].name@ != album_name@,
            decreases albums@.len() - i,
        {
            if text_eq(albums[i].name.as_str(), album_name) {
                assert(albums@[i as int].name@ == album_name@);
                return true;
            }
            i = i + 1;
        }
        false
    }

    /// Appends `album` to the albums of the artist at `artist_index`;
    /// `None`, with nothing changed, when there is no such artist.
    pub fn add_album(&mut self, artist_index: usize, album: Album) -> (r: Option<()>)
        ensures
            final(self).base_view() == old(self).base_view(),
            r is Some <==> artist_index < old(self).artists_view().len(),
            r is None ==> final(self).artists_view() == old(self).artists_view(),
            r is Some ==> {
                let a = old(self).artists_view()[artist_index as int];
                &&& final(self).artists_view().len() == old(self).artists_view().len()
                &&& forall|i: int|
                    0 <= i < old(self).artists_view().len() && i != artist_index
                        ==> #[trigger] final(self).artists_view()[i] == old(self).artists_view()[i]
                &&& final(self).artists_view()[artist_index as int].albums@ == a.albums@.push(album)
                &&& final(self).artists_view()[artist_index as int].id == a.id
                &&& final(self).artists_view()[artist_index as int].name == a.name
                &&& final(self).artists_view()[artist_index as int].picture == a.picture
                &&& final(self).artists_view()[artist_index as int].changed == a.changed
            },
    {
        if artist_index >= self.metadata.artists.len() {
            return None;
        }
        let mut artist = self.metadata.artists.remove(artist_index);
        artist.albums.push(album);
        self.metadata.artists.insert(artist_index, artist);
        Some(())
    }

    /// The directory of the track files.
    pub fn track_dir(&self) -> (r: String)
        ensures
            r@ == join_path(self.base_view(), "tracks"@),
    {
        join(self.base.as_str(), "tracks")
    }

    /// The file that holds the collection's metadata.
    pub fn metadata_file(&self) -> (r: String)
        ensures
            r@ == join_path(self.base_view(), "collection.json"@),
    {
        join(self.base.as_str(), "collection.json")
    }
}

} // verus!
