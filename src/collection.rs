//! The collection registry: artists and albums of one collection root, the
//! rules that add to them, and the records that load and save them.
use vstd::prelude::*;
use crate::ids::{create_id, is_id};
use crate::records::{
    AlbumEntry, AlbumEntryView, AlbumMetadata, AlbumMetadataView, ArtistMetadata, ArtistMetadataView, TrackMetadata,
    TrackMetadataView,
};
use crate::ingest::{make_track_plan, track_plan, EncodeMetadata, EncodeMetadataView, TrackPlan};
use crate::layout::{album_dir, join, mobile_file, mobile_file_name, quality_file, quality_file_name};
use crate::tags::{is_ingest_format, is_ingest_format_name, FormatMetadata};
use crate::text::{opt_text, parse_usize, parse_usize_spec, text_eq};

verus! {

pub struct ArtistView {
    pub id: Seq<char>,
    pub name: Seq<char>,
    pub picture: Seq<char>,
}

pub struct TrackView {
    pub track_num: usize,
    pub name: Seq<char>,
    pub artist_index: usize,
    pub quality_version: Seq<char>,
    pub mobile_version: Seq<char>,
}

pub struct AlbumView {
    pub path: Seq<char>,
    pub id: Seq<char>,
    pub name: Seq<char>,
    pub artist_id: Option<Seq<char>>,
    pub cover_art: Seq<char>,
    pub tracks: Seq<TrackView>,
}

pub struct CollectionView {
    pub base: Seq<char>,
    pub artists: Seq<ArtistView>,
    pub albums: Seq<AlbumView>,
}

impl CollectionView {
    /// Every track refers to an artist of the registry.
    pub open spec fn wf(self) -> bool {
        forall|a: int, t: int|
            0 <= a < self.albums.len() && 0 <= t < self.albums[a].tracks.len()
                ==> #[trigger] self.albums[a].tracks[t].artist_index < self.artists.len()
    }
}

/// An artist of the registry.
pub struct Artist {
    id: String,
    name: String,
    picture: String,
}

/// A track linked into an album: both of its renditions exist.
pub struct Track {
    track_num: usize,
    name: String,
    artist_index: usize,
    quality_version: String,
    mobile_version: String,
}

/// An album with its directory and its tracks in order.
pub struct Album {
    path: String,
    id: String,
    name: String,
    artist_id: Option<String>,
    cover_art: String,
    tracks: Vec<Track>,
}

/// The artists and albums of one collection root.
pub struct Collection {
    base: String,
    artists: Vec<Artist>,
    albums: Vec<Album>,
}

/// Why a step on the collection failed.
#[derive(Debug)]
pub enum CollectionError {
    /// The directory of a freshly drawn album identifier exists already.
    DirectoryCollision(String),
    /// An album of this name is in the collection already.
    DuplicateAlbum(String),
    /// The probed container format is not one that ingestion accepts.
    UnsupportedFormat(String),
    /// The probed bit rate is not a decimal number.
    BadBitRate(String),
    /// The probe tool could not be run or reported failure.
    ProbeFailed(String),
    /// The probe tool's output could not be read.
    ProbeParseFailed(String),
    /// An encoder run did not succeed.
    EncodeFailed(Rendition),
    /// An artist index that the registry does not hold.
    MissingArtistReference(usize),
    /// A saved track names an artist identifier that the registry does not hold.
    UnknownArtistId(String),
}

/// One of the two encoded forms of a track.
#[derive(PartialEq, Eq, Structural, Clone, Copy, Debug)]
pub enum Rendition {
    Quality,
    Mobile,
}

impl View for Artist {
    type V = ArtistView;

    closed spec fn view(&self) -> ArtistView {
        ArtistView { id: self.id@, name: self.name@, picture: self.picture@ }
    }
}

impl View for Track {
    type V = TrackView;

    closed spec fn view(&self) -> TrackView {
        TrackView {
            track_num: self.track_num,
            name: self.name@,
            artist_index: self.artist_index,
            quality_version: self.quality_version@,
            mobile_version: self.mobile_version@,
        }
    }
}

impl View for Album {
    type V = AlbumView;

    closed spec fn view(&self) -> AlbumView {
        AlbumView {
            path: self.path@,
            id: self.id@,
            name: self.name@,
            artist_id: opt_text(self.artist_id),
            cover_art: self.cover_art@,
            tracks: self.tracks@.map_values(|t: Track| t@),
        }
    }
}

impl View for Collection {
    type V = CollectionView;

    closed spec fn view(&self) -> CollectionView {
        CollectionView {
            base: self.base@,
            artists: self.artists@.map_values(|a: Artist| a@),
            albums: self.albums@.map_values(|a: Album| a@),
        }
    }
}

/// The artist that a saved record describes.
pub open spec fn artist_of_record(r: ArtistMetadataView) -> ArtistView {
    ArtistView { id: r.id, name: r.name, picture: r.picture }
}

/// `i` is the first position of an artist with identifier `id`.
pub open spec fn first_with_id(artists: Seq<ArtistView>, id: Seq<char>, i: int) -> bool {
    &&& 0 <= i < artists.len()
    &&& artists[i].id == id
    &&& forall|j: int| 0 <= j < i ==> #[trigger] artists[j].id != id
}

pub open spec fn has_artist_id(artists: Seq<ArtistView>, id: Seq<char>) -> bool {
    exists|i: int| 0 <= i < artists.len() && #[trigger] artists[i].id == id
}

/// `i` is the first position of an artist named `name`.
pub open spec fn first_with_name(artists: Seq<ArtistView>, name: Seq<char>, i: int) -> bool {
    &&& 0 <= i < artists.len()
    &&& artists[i].name == name
    &&& forall|j: int| 0 <= j < i ==> #[trigger] artists[j].name != name
}

pub open spec fn has_artist_named(artists: Seq<ArtistView>, name: Seq<char>) -> bool {
    exists|i: int| 0 <= i < artists.len() && #[trigger] artists[i].name == name
}

pub open spec fn has_album_named(albums: Seq<AlbumView>, name: Seq<char>) -> bool {
    exists|i: int| 0 <= i < albums.len() && #[trigger] albums[i].name == name
}

/// A saved track, linked to the first artist that bears its artist identifier.
pub open spec fn track_of_record(
    artists: Seq<ArtistView>,
    r: TrackMetadataView,
    t: TrackView,
) -> bool {
    &&& t.track_num == r.track_num
    &&& t.name == r.name
    &&& first_with_id(artists, r.artist_id, t.artist_index as int)
    &&& t.quality_version == r.quality_version
    &&& t.mobile_version == r.mobile_version
}

/// The album that a saved directory entry describes.
pub open spec fn album_of_entry(artists: Seq<ArtistView>, e: AlbumEntryView, a: AlbumView) -> bool {
    &&& a.path == e.dir
    &&& a.id == e.metadata.id
    &&& a.name == e.metadata.name
    &&& a.artist_id == e.metadata.artist_id
    &&& a.cover_art == e.metadata.cover_art
    &&& a.tracks.len() == e.metadata.tracks.len()
    &&& forall|t: int|
        0 <= t < a.tracks.len() ==> track_of_record(artists, e.metadata.tracks[t], #[trigger] a.tracks[t])
}

/// Every saved track names an artist identifier of the registry.
pub open spec fn entries_resolve(artists: Seq<ArtistView>, entries: Seq<AlbumEntryView>) -> bool {
    forall|e: int, t: int|
        0 <= e < entries.len() && 0 <= t < entries[e].metadata.tracks.len() ==> has_artist_id(
            artists,
            #[trigger] entries[e].metadata.tracks[t].artist_id,
        )
}

/// `c` is the collection at `base` that the saved records describe.
pub open spec fn loaded_from(
    base: Seq<char>,
    records: Seq<ArtistMetadataView>,
    entries: Seq<AlbumEntryView>,
    c: CollectionView,
) -> bool {
    &&& c.base == base
    &&& c.artists == records.map_values(|r: ArtistMetadataView| artist_of_record(r))
    &&& c.albums.len() == entries.len()
    &&& forall|i: int| 0 <= i < entries.len() ==> album_of_entry(c.artists, entries[i], #[trigger] c.albums[i])
}

/// What `get_or_insert_artist(name)` does: it returns the first artist named
/// `name`, or appends one under a fresh identifier with no picture and
/// returns its position. Nothing else changes.
pub open spec fn found_or_inserted(
    before: CollectionView,
    name: Seq<char>,
    after: CollectionView,
    r: usize,
) -> bool {
    &&& after.base == before.base
    &&& after.albums == before.albums
    &&& if has_artist_named(before.artists, name) {
        &&& first_with_name(before.artists, name, r as int)
        &&& after.artists == before.artists
    } else {
        &&& r == before.artists.len()
        &&& is_id(after.artists[r as int].id)
        &&& after.artists == before.artists.push(
            ArtistView { id: after.artists[r as int].id, name, picture: Seq::empty() },
        )
    }
}

/// What `add_album(artist_id, name, id)` does: when an album of that name
/// exists it returns `None` and changes nothing; otherwise it appends an
/// empty album with identifier `id` in `album_dir(base, id)` and returns its
/// position.
pub open spec fn album_added(
    before: CollectionView,
    artist_id: Option<Seq<char>>,
    name: Seq<char>,
    id: Seq<char>,
    after: CollectionView,
    r: Option<usize>,
) -> bool {
    &&& after.base == before.base
    &&& after.artists == before.artists
    &&& if has_album_named(before.albums, name) {
        &&& r is None
        &&& after.albums == before.albums
    } else {
        &&& r == Some(before.albums.len() as usize)
        &&& after.albums == before.albums.push(
            AlbumView {
                path: album_dir(before.base, id),
                id,
                name,
                artist_id,
                cover_art: Seq::empty(),
                tracks: Seq::empty(),
            },
        )
    }
}

/// Asking twice for the same artist name gives the same position, and the
/// second call changes nothing.
pub proof fn lemma_get_or_insert_idempotent(
    c0: CollectionView,
    name: Seq<char>,
    c1: CollectionView,
    r1: usize,
    c2: CollectionView,
    r2: usize,
)
    requires
        found_or_inserted(c0, name, c1, r1),
        found_or_inserted(c1, name, c2, r2),
    ensures
        r1 == r2,
        c2 == c1,
{
    assert(c1.artists[r1 as int].name == name);
    assert(has_artist_named(c1.artists, name));
    if r2 < r1 {
        assert(c1.artists[r2 as int].name == name);
        if has_artist_named(c0.artists, name) {
        } else {
            assert(c1.artists[r2 as int] == c0.artists[r2 as int]);
        }
    }
    if r1 < r2 {
        assert(c1.artists[r1 as int].name != name);
    }
}

/// Once an album of some name was added, adding one of the same name again
/// gives `None` and changes nothing, whatever the artist and identifier.
pub proof fn lemma_add_album_rejects_same_name(
    c0: CollectionView,
    artist1: Option<Seq<char>>,
    artist2: Option<Seq<char>>,
    name: Seq<char>,
    id1: Seq<char>,
    id2: Seq<char>,
    c1: CollectionView,
    r1: Option<usize>,
    c2: CollectionView,
    r2: Option<usize>,
)
    requires
        album_added(c0, artist1, name, id1, c1, r1),
        album_added(c1, artist2, name, id2, c2, r2),
    ensures
        r2 is None,
        c2 == c1,
{
    if !has_album_named(c0.albums, name) {
        let last = c0.albums.len() as int;
        assert(c1.albums[last].name == name);
    }
    assert(has_album_named(c1.albums, name));
}

/// The track that linking track `m` appends.
pub open spec fn linked_track(m: EncodeMetadataView) -> TrackView {
    TrackView {
        track_num: m.track,
        name: m.title,
        artist_index: m.artist,
        quality_version: quality_file(m.track),
        mobile_version: mobile_file(m.track),
    }
}

/// What `link_track` does once both encoder runs have been made: it fails
/// and changes nothing when a run failed or the track's artist is not in
/// the registry; otherwise it appends the track to album `album_index`.
pub open spec fn track_linked(
    before: CollectionView,
    album_index: int,
    m: EncodeMetadataView,
    quality_ok: bool,
    mobile_ok: bool,
    after: CollectionView,
    r: Result<(), CollectionError>,
) -> bool {
    if !quality_ok {
        r == Err::<(), CollectionError>(CollectionError::EncodeFailed(Rendition::Quality))
            && after == before
    } else if !mobile_ok {
        r == Err::<(), CollectionError>(CollectionError::EncodeFailed(Rendition::Mobile))
            && after == before
    } else if m.artist >= before.artists.len() {
        r == Err::<(), CollectionError>(CollectionError::MissingArtistReference(m.artist))
            && after == before
    } else {
        &&& r is Ok
        &&& after.base == before.base
        &&& after.artists == before.artists
        &&& after.albums == before.albums.update(
            album_index,
            AlbumView {
                tracks: before.albums[album_index].tracks.push(linked_track(m)),
                ..before.albums[album_index]
            },
        )
    }
}

/// Linking a track that succeeds makes its album's track list longer by
/// exactly one, with the new track last; the other albums keep theirs.
pub proof fn lemma_link_adds_one_track(
    before: CollectionView,
    album_index: int,
    m: EncodeMetadataView,
    after: CollectionView,
)
    requires
        0 <= album_index < before.albums.len(),
        track_linked(before, album_index, m, true, true, after, Ok(())),
    ensures
        after.albums.len() == before.albums.len(),
        after.albums[album_index].tracks.len() == before.albums[album_index].tracks.len() + 1,
        after.albums[album_index].tracks.last() == linked_track(m),
        forall|i: int|
            0 <= i < before.albums.len() && i != album_index ==> #[trigger] after.albums[i]
                == before.albums[i],
{
}

/// The saved record of an artist.
pub open spec fn record_of_artist(a: ArtistView) -> ArtistMetadataView {
    ArtistMetadataView { id: a.id, name: a.name, picture: a.picture }
}

/// The saved record of a track: its artist by identifier.
pub open spec fn record_of_track(artists: Seq<ArtistView>, t: TrackView) -> TrackMetadataView {
    TrackMetadataView {
        track_num: t.track_num,
        name: t.name,
        artist_id: artists[t.artist_index as int].id,
        quality_version: t.quality_version,
        mobile_version: t.mobile_version,
    }
}

/// The saved directory entry of an album.
pub open spec fn entry_of_album(artists: Seq<ArtistView>, a: AlbumView) -> AlbumEntryView {
    AlbumEntryView {
        dir: a.path,
        metadata: AlbumMetadataView {
            id: a.id,
            name: a.name,
            artist_id: a.artist_id,
            cover_art: a.cover_art,
            tracks: a.tracks.map_values(|t: TrackView| record_of_track(artists, t)),
        },
    }
}

pub open spec fn saved_artists(c: CollectionView) -> Seq<ArtistMetadataView> {
    c.artists.map_values(|a: ArtistView| record_of_artist(a))
}

pub open spec fn saved_albums(c: CollectionView) -> Seq<AlbumEntryView> {
    c.albums.map_values(|a: AlbumView| entry_of_album(c.artists, a))
}

pub open spec fn distinct_artist_ids(artists: Seq<ArtistView>) -> bool {
    forall|i: int, j: int|
        0 <= i < artists.len() && 0 <= j < artists.len() && i != j ==> #[trigger] artists[i].id
            != #[trigger] artists[j].id
}

/// Saving a collection and loading what was saved from the same root gives
/// the same collection, when no two artists share an identifier: loading
/// succeeds, and every artist, album and track comes back with the same
/// field values, in the same order.
pub proof fn lemma_save_load_round_trip(c: CollectionView, loaded: CollectionView)
    requires
        c.wf(),
        distinct_artist_ids(c.artists),
    ensures
        entries_resolve(
            saved_artists(c).map_values(|a: ArtistMetadataView| artist_of_record(a)),
            saved_albums(c),
        ),
        loaded_from(c.base, saved_artists(c), saved_albums(c), loaded) ==> loaded == c,
{
    let artists = saved_artists(c).map_values(|a: ArtistMetadataView| artist_of_record(a));
    assert(artists =~= c.artists);
    let entries = saved_albums(c);
    assert forall|e: int, t: int|
        0 <= e < entries.len() && 0 <= t < entries[e].metadata.tracks.len() implies has_artist_id(
        artists,
        #[trigger] entries[e].metadata.tracks[t].artist_id,
    ) by {
        let k = c.albums[e].tracks[t].artist_index as int;
        assert(artists[k].id == entries[e].metadata.tracks[t].artist_id);
    }
    if loaded_from(c.base, saved_artists(c), saved_albums(c), loaded) {
        assert(loaded.artists =~= c.artists);
        assert forall|i: int| 0 <= i < c.albums.len() implies #[trigger] loaded.albums[i]
            == c.albums[i] by {
            let a = c.albums[i];
            let b = loaded.albums[i];
            assert(album_of_entry(c.artists, entries[i], b));
            assert forall|t: int| 0 <= t < a.tracks.len() implies #[trigger] b.tracks[t]
                == a.tracks[t] by {
                assert(track_of_record(c.artists, entries[i].metadata.tracks[t], b.tracks[t]));
                let k = a.tracks[t].artist_index as int;
                let j = b.tracks[t].artist_index as int;
                assert(c.artists[j].id == c.artists[k].id);
            }
            assert(b.tracks =~= a.tracks);
        }
        assert(loaded.albums =~= c.albums);
    }
}

pub open spec fn artist_records_view(v: Seq<ArtistMetadata>) -> Seq<ArtistMetadataView> {
    v.map_values(|r: ArtistMetadata| r@)
}

pub open spec fn entries_view(v: Seq<AlbumEntry>) -> Seq<AlbumEntryView> {
    v.map_values(|e: AlbumEntry| e@)
}

impl Artist {
    pub fn id(&self) -> (r: &str)
        ensures
            r@ == self@.id,
    {
        self.id.as_str()
    }

    pub fn name(&self) -> (r: &str)
        ensures
            r@ == self@.name,
    {
        self.name.as_str()
    }

    pub fn picture(&self) -> (r: &str)
        ensures
            r@ == self@.picture,
    {
        self.picture.as_str()
    }
}

impl Track {
    pub fn track_num(&self) -> (r: usize)
        ensures
            r == self@.track_num,
    {
        self.track_num
    }

    pub fn name(&self) -> (r: &str)
        ensures
            r@ == self@.name,
    {
        self.name.as_str()
    }

    /// The position in the artist registry of the track's artist.
    pub fn artist(&self) -> (r: usize)
        ensures
            r == self@.artist_index,
    {
        self.artist_index
    }

    pub fn quality_version(&self) -> (r: &str)
        ensures
            r@ == self@.quality_version,
    {
        self.quality_version.as_str()
    }

    pub fn mobile_version(&self) -> (r: &str)
        ensures
            r@ == self@.mobile_version,
    {
        self.mobile_version.as_str()
    }
}

impl Album {
    pub fn id(&self) -> (r: &str)
        ensures
            r@ == self@.id,
    {
        self.id.as_str()
    }

    pub fn name(&self) -> (r: &str)
        ensures
            r@ == self@.name,
    {
        self.name.as_str()
    }

    pub fn path(&self) -> (r: &str)
        ensures
            r@ == self@.path,
    {
        self.path.as_str()
    }

    pub fn tracks(&self) -> (r: &Vec<Track>)
        ensures
            r@.map_values(|t: Track| t@) == self@.tracks,
    {
        &self.tracks
    }
}

impl Collection {
    pub open spec fn wf(&self) -> bool {
        self@.wf()
    }

    /// The collection root.
    pub fn base(&self) -> (r: &str)
        ensures
            r@ == self@.base,
    {
        self.base.as_str()
    }

    pub fn albums(&self) -> (r: &Vec<Album>)
        ensures
            r@.map_values(|a: Album| a@) == self@.albums,
    {
        &self.albums
    }

    pub fn artist_count(&self) -> (r: usize)
        ensures
            r == self@.artists.len(),
    {
        self.artists.len()
    }

    /// The position of the first artist named `name`; when there is none, a
    /// new artist with a fresh identifier is appended and its position
    /// returned.
    pub fn get_or_insert_artist(&mut self, name: &str) -> (r: usize)
        ensures
            found_or_inserted(old(self)@, name@, final(self)@, r),
            old(self).wf() ==> final(self).wf(),
    {
        match self.get_artist_by_name(name) {
            Some(index) => index,
            None => {
                let index = self.artists.len();
                let ghost before = self@;
                let id = create_id();
                let artist = Artist { id, name: String::from_str(name), picture: String::new() };
                self.artists.push(artist);
                assert(self@.artists =~= before.artists.push(artist@));
                assert(self@.albums =~= before.albums);
                index
            },
        }
    }

    /// The position of the first artist named `name`.
    fn get_artist_by_name(&self, name: &str) -> (r: Option<usize>)
        ensures
            r matches Some(i) ==> first_with_name(self@.artists, name@, i as int),
            r is None ==> !has_artist_named(self@.artists, name@),
    {
        let mut i: usize = 0;
        while i < self.artists.len()
            invariant
                i <= self@.artists.len(),
                forall|j: int| 0 <= j < i ==> #[trigger] self@.artists[j].name != name@,
            decreases self@.artists.len() - i,
        {
            if text_eq(self.artists[i].name.as_str(), name) {
                return Some(i);
            }
            i = i + 1;
        }
        None
    }

    /// The artist at `index`, or `None` past the end of the registry.
    pub fn artist_by_index(&self, index: usize) -> (r: Option<&Artist>)
        ensures
            r is Some <==> index < self@.artists.len(),
            r matches Some(a) ==> a@ == self@.artists[index as int],
    {
        if index < self.artists.len() {
            Some(&self.artists[index])
        } else {
            None
        }
    }

    /// The first artist with identifier `id`.
    pub fn artist_by_id(&self, id: &str) -> (r: Option<&Artist>)
        ensures
            r is Some <==> has_artist_id(self@.artists, id@),
            r matches Some(a) ==> exists|i: int|
                first_with_id(self@.artists, id@, i) && #[trigger] self@.artists[i] == a@,
    {
        match self.get_artist_by_id(id) {
            Some(i) => {
                assert(self@.artists[i as int] == self.artists@[i as int]@);
                Some(&self.artists[i])
            },
            None => None,
        }
    }

    /// `Some(())` when an album named `name` is in the collection.
    pub fn get_album_by_name(&self, name: &str) -> (r: Option<()>)
        ensures
            r is Some <==> has_album_named(self@.albums, name@),
    {
        let mut i: usize = 0;
        while i < self.albums.len()
            invariant
                i <= self@.albums.len(),
                forall|j: int| 0 <= j < i ==> #[trigger] self@.albums[j].name != name@,
            decreases self@.albums.len() - i,
        {
            if text_eq(self.albums[i].name.as_str(), name) {
                assert(self@.albums[i as int].name == name@);
                return Some(());
            }
            i = i + 1;
        }
        None
    }

    /// The directory that the album `id` has in this collection.
    pub fn album_path(&self, id: &str) -> (r: String)
        ensures
            r@ == album_dir(self@.base, id@),
    {
        let albums = join(self.base.as_str(), "albums");
        join(albums.as_str(), id)
    }

    /// A fresh identifier and the directory that an album of that
    /// identifier would have. Whether the directory is free is for the
    /// caller to check on disk.
    pub fn generate_new_album(&self) -> (r: (String, String))
        ensures
            is_id(r.0@),
            r.1@ == album_dir(self@.base, r.0@),
    {
        let id = create_id();
        let path = self.album_path(id.as_str());
        (id, path)
    }

    /// Appends an empty album named `name` with identifier `id`, unless an
    /// album of that name exists: then `None`.
    pub fn add_album(&mut self, artist_id: Option<String>, name: String, id: String) -> (r: Option<usize>)
        ensures
            album_added(old(self)@, opt_text(artist_id), name@, id@, final(self)@, r),
            old(self).wf() ==> final(self).wf(),
    {
        if self.get_album_by_name(name.as_str()).is_some() {
            return None;
        }
        let path = self.album_path(id.as_str());
        let index = self.albums.len();
        let ghost before = self@;
        let album = Album {
            path,
            id,
            name,
            artist_id,
            cover_art: String::new(),
            tracks: Vec::new(),
        };
        assert(album@.tracks =~= Seq::<TrackView>::empty());
        self.albums.push(album);
        assert(self@.albums =~= before.albums.push(album@));
        assert(self@.artists =~= before.artists);
        Some(index)
    }

    /// Decides, from what the probe reported of `file_path`, the work that
    /// ingesting it as a track of album `album_index` takes. The format
    /// must be one that ingestion accepts, the bit rate a decimal number,
    /// and both artists of `meta` in the registry.
    pub fn plan_track(
        &self,
        album_index: usize,
        file_path: &str,
        meta: &EncodeMetadata,
        probe: &FormatMetadata,
    ) -> (r: Result<TrackPlan, CollectionError>)
        requires
            album_index < self@.albums.len(),
        ensures
            !is_ingest_format(probe.format_name@) ==> (r matches Err(
                CollectionError::UnsupportedFormat(f),
            ) && f@ == probe.format_name@),
            is_ingest_format(probe.format_name@) && parse_usize_spec(probe.bit_rate@) is None
                ==> (r matches Err(CollectionError::BadBitRate(b)) && b@ == probe.bit_rate@),
            is_ingest_format(probe.format_name@) && parse_usize_spec(probe.bit_rate@) is Some && (
            meta.artist >= self@.artists.len() || meta.album_artist >= self@.artists.len())
                ==> (r matches Err(CollectionError::MissingArtistReference(i)) && (i == meta.artist
                || i == meta.album_artist) && i >= self@.artists.len()),
            is_ingest_format(probe.format_name@) && parse_usize_spec(probe.bit_rate@) is Some
                && meta.artist < self@.artists.len() && meta.album_artist < self@.artists.len()
                ==> (r matches Ok(p) && p@ == track_plan(
                self@.albums[album_index as int].path,
                file_path@,
                parse_usize_spec(probe.bit_rate@)->0,
                meta.title@,
                meta.album@,
                self@.artists[meta.album_artist as int].name,
                self@.artists[meta.artist as int].name,
                meta.track,
            )),
    {
        if !is_ingest_format_name(probe.format_name.as_str()) {
            return Err(CollectionError::UnsupportedFormat(probe.format_name.clone()));
        }
        let bit_rate = match parse_usize(probe.bit_rate.as_str()) {
            Some(b) => b,
            None => {
                return Err(CollectionError::BadBitRate(probe.bit_rate.clone()));
            },
        };
        if meta.artist >= self.artists.len() {
            return Err(CollectionError::MissingArtistReference(meta.artist));
        }
        if meta.album_artist >= self.artists.len() {
            return Err(CollectionError::MissingArtistReference(meta.album_artist));
        }
        let album = &self.albums[album_index];
        assert(self@.albums[album_index as int] == album@);
        assert(self@.artists[meta.artist as int] == self.artists@[meta.artist as int]@);
        assert(self@.artists[meta.album_artist as int] == self.artists@[meta.album_artist as int]@);
        Ok(
            make_track_plan(
                album.path.as_str(),
                file_path,
                bit_rate,
                meta.title.as_str(),
                meta.album.as_str(),
                self.artists[meta.album_artist].name.as_str(),
                self.artists[meta.artist].name.as_str(),
                meta.track,
            ),
        )
    }

    /// Links track `meta` into album `album_index` once both encoder runs of
    /// its plan are done: `quality_ok` and `mobile_ok` tell whether each
    /// succeeded. Nothing changes unless both did and the track's artist is
    /// in the registry.
    pub fn link_track(
        &mut self,
        album_index: usize,
        meta: &EncodeMetadata,
        quality_ok: bool,
        mobile_ok: bool,
    ) -> (r: Result<(), CollectionError>)
        requires
            album_index < old(self)@.albums.len(),
        ensures
            track_linked(
                old(self)@,
                album_index as int,
                meta@,
                quality_ok,
                mobile_ok,
                final(self)@,
                r,
            ),
            old(self).wf() ==> final(self).wf(),
    {
        if !quality_ok {
            return Err(CollectionError::EncodeFailed(Rendition::Quality));
        }
        if !mobile_ok {
            return Err(CollectionError::EncodeFailed(Rendition::Mobile));
        }
        if meta.artist >= self.artists.len() {
            return Err(CollectionError::MissingArtistReference(meta.artist));
        }
        let track = Track {
            track_num: meta.track,
            name: meta.title.clone(),
            artist_index: meta.artist,
            quality_version: quality_file_name(meta.track),
            mobile_version: mobile_file_name(meta.track),
        };
        assert(track@ == linked_track(meta@));
        let ghost before = self@;
        let ghost old_album = self.albums@[album_index as int];
        let mut album = self.albums.remove(album_index);
        assert(album == old_album);
        album.tracks.push(track);
        assert(album@.tracks =~= old_album@.tracks.push(track@));
        self.albums.insert(album_index, album);
        assert(self@.albums =~= before.albums.update(
            album_index as int,
            AlbumView { tracks: before.albums[album_index as int].tracks.push(linked_track(meta@)), ..before.albums[album_index as int] },
        ));
        assert(self@.artists =~= before.artists);
        proof {
            if before.wf() {
                assert forall|a: int, t: int|
                    0 <= a < self@.albums.len() && 0 <= t < self@.albums[a].tracks.len()
                        implies #[trigger] self@.albums[a].tracks[t].artist_index
                    < self@.artists.len() by {
                    if a == album_index && t == before.albums[a].tracks.len() {
                    } else if a == album_index {
                        assert(self@.albums[a].tracks[t] == before.albums[a].tracks[t]);
                    } else {
                        assert(self@.albums[a] == before.albums[a]);
                    }
                }
            }
        }
        Ok(())
    }

    /// The records of `artists.json`, in registry order.
    pub fn artist_records(&self) -> (r: Vec<ArtistMetadata>)
        ensures
            artist_records_view(r@) == saved_artists(self@),
    {
        let mut out: Vec<ArtistMetadata> = Vec::new();
        let mut i: usize = 0;
        while i < self.artists.len()
            invariant
                i <= self@.artists.len(),
                artist_records_view(out@) =~= saved_artists(self@).take(i as int),
            decreases self@.artists.len() - i,
        {
            let a = &self.artists[i];
            let ghost before = out@;
            out.push(
                ArtistMetadata { id: a.id.clone(), name: a.name.clone(), picture: a.picture.clone() },
            );
            assert(saved_artists(self@)[i as int] == record_of_artist(a@));
            assert(artist_records_view(out@) =~= artist_records_view(before).push(
                record_of_artist(a@),
            ));
            assert(saved_artists(self@).take(i + 1) =~= saved_artists(self@).take(i as int).push(
                record_of_artist(a@),
            ));
            i = i + 1;
        }
        assert(saved_artists(self@).take(i as int) =~= saved_artists(self@));
        out
    }

    /// One entry for each album, in order: its directory and the record of
    /// its `album.json`, where each track names its artist by identifier.
    pub fn album_records(&self) -> (r: Vec<AlbumEntry>)
        requires
            self.wf(),
        ensures
            entries_view(r@) == saved_albums(self@),
    {
        let mut out: Vec<AlbumEntry> = Vec::new();
        let mut i: usize = 0;
        while i < self.albums.len()
            invariant
                i <= self@.albums.len(),
                self.wf(),
                entries_view(out@) =~= saved_albums(self@).take(i as int),
            decreases self@.albums.len() - i,
        {
            let a = &self.albums[i];
            assert(self@.albums[i as int] == a@);
            let mut tracks: Vec<TrackMetadata> = Vec::new();
            let mut t: usize = 0;
            while t < a.tracks.len()
                invariant
                    t <= a@.tracks.len(),
                    self.wf(),
                    self@.albums[i as int] == a@,
                    i < self@.albums.len(),
                    tracks@.map_values(|x: TrackMetadata| x@) =~= a@.tracks.map_values(
                        |x: TrackView| record_of_track(self@.artists, x),
                    ).take(t as int),
                decreases a@.tracks.len() - t,
            {
                let tr = &a.tracks[t];
                assert(a@.tracks[t as int] == tr@);
                assert(self@.albums[i as int].tracks[t as int].artist_index < self@.artists.len());
                let artist = &self.artists[tr.artist_index];
                assert(self@.artists[tr.artist_index as int] == artist@);
                let ghost before = tracks@;
                let rec = TrackMetadata {
                    track_num: tr.track_num,
                    name: tr.name.clone(),
                    artist_id: artist.id.clone(),
                    quality_version: tr.quality_version.clone(),
                    mobile_version: tr.mobile_version.clone(),
                };
                tracks.push(rec);
                assert(rec@ == record_of_track(self@.artists, tr@));
                assert(tracks@.map_values(|x: TrackMetadata| x@) =~= before.map_values(
                    |x: TrackMetadata| x@,
                ).push(rec@));
                t = t + 1;
            }
            let ghost tv = tracks@.map_values(|x: TrackMetadata| x@);
            assert(tv =~= a@.tracks.map_values(|x: TrackView| record_of_track(self@.artists, x)));
            let entry = AlbumEntry {
                dir: a.path.clone(),
                metadata: AlbumMetadata {
                    id: a.id.clone(),
                    name: a.name.clone(),
                    artist_id: a.artist_id.clone(),
                    cover_art: a.cover_art.clone(),
                    tracks,
                },
            };
            assert(entry@ == entry_of_album(self@.artists, a@));
            let ghost before = out@;
            out.push(entry);
            assert(entries_view(out@) =~= entries_view(before).push(entry@));
            assert(saved_albums(self@).take(i + 1) =~= saved_albums(self@).take(i as int).push(
                entry@,
            ));
            i = i + 1;
        }
        assert(saved_albums(self@).take(i as int) =~= saved_albums(self@));
        out
    }

    /// The collection at `base` that saved records describe: the artists of
    /// `artists.json` in order, then one album for each album directory.
    /// Fails when a saved track names an artist identifier that no record
    /// holds.
    pub fn new(base: String, artists: Vec<ArtistMetadata>, albums: Vec<AlbumEntry>) -> (r: Result<
        Self,
        CollectionError,
    >)
        ensures
            r is Ok <==> entries_resolve(
                artist_records_view(artists@).map_values(|a: ArtistMetadataView| artist_of_record(a)),
                entries_view(albums@),
            ),
            r matches Ok(c) ==> c.wf() && loaded_from(
                base@,
                artist_records_view(artists@),
                entries_view(albums@),
                c@,
            ),
            r matches Err(e) ==> e matches CollectionError::UnknownArtistId(id) && !has_artist_id(
                artist_records_view(artists@).map_values(|a: ArtistMetadataView| artist_of_record(a)),
                id@,
            ),
    {
        let mut collection = Collection { base, artists: Vec::new(), albums: Vec::new() };
        collection.load_artists(&artists);
        assert(collection@.artists =~= artist_records_view(artists@).map_values(
            |a: ArtistMetadataView| artist_of_record(a),
        ));
        match collection.load_albums(&albums) {
            Ok(()) => Ok(collection),
            Err(e) => Err(e),
        }
    }

    fn load_artists(&mut self, records: &Vec<ArtistMetadata>)
        requires
            old(self).albums@.len() == 0,
            old(self).artists@.len() == 0,
        ensures
            final(self)@.base == old(self)@.base,
            final(self)@.albums.len() == 0,
            final(self)@.artists == artist_records_view(records@).map_values(
                |a: ArtistMetadataView| artist_of_record(a),
            ),
    {
        let mut i: usize = 0;
        while i < records.len()
            invariant
                i <= records@.len(),
                self@.base == old(self)@.base,
                self@.albums.len() == 0,
                self@.artists =~= artist_records_view(records@.take(i as int)).map_values(
                    |a: ArtistMetadataView| artist_of_record(a),
                ),
            decreases records@.len() - i,
        {
            let r = &records[i];
            let ghost before = self@.artists;
            self.artists.push(
                Artist { id: r.id.clone(), name: r.name.clone(), picture: r.picture.clone() },
            );
            assert(self@.artists =~= before.push(artist_of_record(r@)));
            assert(records@.take(i + 1) =~= records@.take(i as int).push(records@[i as int]));
            i = i + 1;
        }
        assert(records@.take(i as int) =~= records@);
    }

    /// The first position of an artist with identifier `id`.
    fn get_artist_by_id(&self, id: &str) -> (r: Option<usize>)
        ensures
            r matches Some(i) ==> first_with_id(self@.artists, id@, i as int),
            r is None ==> !has_artist_id(self@.artists, id@),
    {
        let mut i: usize = 0;
        while i < self.artists.len()
            invariant
                i <= self@.artists.len(),
                forall|j: int| 0 <= j < i ==> #[trigger] self@.artists[j].id != id@,
            decreases self@.artists.len() - i,
        {
            if text_eq(self.artists[i].id.as_str(), id) {
                return Some(i);
            }
            i = i + 1;
        }
        None
    }

    #[verifier::loop_isolation(false)]
    fn load_albums(&mut self, entries: &Vec<AlbumEntry>) -> (r: Result<(), CollectionError>)
        requires
            old(self).albums@.len() == 0,
        ensures
            final(self)@.base == old(self)@.base,
            final(self)@.artists == old(self)@.artists,
            r is Ok <==> entries_resolve(old(self)@.artists, entries_view(entries@)),
            r is Ok ==> final(self).wf() && final(self)@.albums.len() == entries@.len() && (forall|
                i: int,
            |
                0 <= i < entries@.len() ==> album_of_entry(
                    final(self)@.artists,
                    entries@[i]@,
                    #[trigger] final(self)@.albums[i],
                )),
            r matches Err(e) ==> e matches CollectionError::UnknownArtistId(id) && !has_artist_id(
                old(self)@.artists,
                id@,
            ),
    {
        let ghost ev = entries_view(entries@);
        let mut i: usize = 0;
        while i < entries.len()
            invariant
                i <= entries@.len(),
                ev == entries_view(entries@),
                self@.base == old(self)@.base,
                self@.artists == old(self)@.artists,
                self@.albums.len() == i,
                self.wf(),
                forall|k: int|
                    0 <= k < i ==> album_of_entry(self@.artists, ev[k], #[trigger] self@.albums[k]),
                forall|e: int, t: int|
                    0 <= e < i && 0 <= t < ev[e].metadata.tracks.len() ==> has_artist_id(
                        self@.artists,
                        #[trigger] ev[e].metadata.tracks[t].artist_id,
                    ),
            decreases entries@.len() - i,
        {
            let m = &entries[i].metadata;
            let ghost mv = ev[i as int].metadata;
            assert(mv == m@);
            let mut tracks: Vec<Track> = Vec::new();
            let mut t: usize = 0;
            while t < m.tracks.len()
                invariant
                    t <= m.tracks@.len(),
                    mv == m@,
                    tracks@.len() == t,
                    forall|k: int|
                        0 <= k < t ==> track_of_record(
                            self@.artists,
                            mv.tracks[k],
                            #[trigger] tracks@[k]@,
                        ),
                    forall|k: int|
                        0 <= k < t ==> has_artist_id(self@.artists, #[trigger] mv.tracks[k].artist_id),
                decreases m.tracks@.len() - t,
            {
                let rec = &m.tracks[t];
                assert(mv.tracks[t as int] == rec@);
                match self.get_artist_by_id(rec.artist_id.as_str()) {
                    Some(index) => {
                        tracks.push(
                            Track {
                                track_num: rec.track_num,
                                name: rec.name.clone(),
                                artist_index: index,
                                quality_version: rec.quality_version.clone(),
                                mobile_version: rec.mobile_version.clone(),
                            },
                        );
                    },
                    None => {
                        proof {
                            assert(!entries_resolve(old(self)@.artists, entries_view(entries@))) by {
                                assert(ev[i as int].metadata.tracks[t as int].artist_id
                                    == rec.artist_id@);
                            }
                        }
                        return Err(CollectionError::UnknownArtistId(rec.artist_id.clone()));
                    },
                }
                t = t + 1;
            }
            let album = Album {
                path: entries[i].dir.clone(),
                id: m.id.clone(),
                name: m.name.clone(),
                artist_id: m.artist_id.clone(),
                cover_art: m.cover_art.clone(),
                tracks,
            };
            assert(album@.tracks =~= tracks@.map_values(|x: Track| x@));
            assert forall|k: int| 0 <= k < album@.tracks.len() implies track_of_record(
                self@.artists,
                mv.tracks[k],
                #[trigger] album@.tracks[k],
            ) by {
                assert(album@.tracks[k] == tracks@[k]@);
            }
            let ghost before = self@;
            self.albums.push(album);
            assert(self@.albums =~= before.albums.push(album@));
            proof {
                assert forall|e: int, u: int|
                    0 <= e < i + 1 && 0 <= u < ev[e].metadata.tracks.len() implies has_artist_id(
                    self@.artists,
                    #[trigger] ev[e].metadata.tracks[u].artist_id,
                ) by {
                    if e == i {
                        assert(has_artist_id(self@.artists, mv.tracks[u].artist_id));
                    }
                }
                assert forall|a: int, u: int|
                    0 <= a < self@.albums.len() && 0 <= u < self@.albums[a].tracks.len()
                        implies #[trigger] self@.albums[a].tracks[u].artist_index
                    < self@.artists.len() by {
                    if a == i {
                        assert(track_of_record(self@.artists, mv.tracks[u], album@.tracks[u]));
                    }
                }
            }
            i = i + 1;
        }
        Ok(())
    }
}

} // verus!
