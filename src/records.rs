//! The records of the collection's metadata files: `artists.json` holds a
//! list of `ArtistMetadata`, each album directory an `album.json` with one
//! `AlbumMetadata`.
use vstd::prelude::*;
use crate::text::opt_text;

verus! {

pub struct TrackMetadata {
    pub track_num: usize,
    pub name: String,
    pub artist_id: String,
    pub quality_version: String,
    pub mobile_version: String,
}

pub struct AlbumMetadata {
    pub id: String,
    pub name: String,
    pub artist_id: Option<String>,
    pub cover_art: String,
    pub tracks: Vec<TrackMetadata>,
}

pub struct ArtistMetadata {
    pub id: String,
    pub name: String,
    pub picture: String,
}

/// One album directory with the record of its `album.json`.
pub struct AlbumEntry {
    pub dir: String,
    pub metadata: AlbumMetadata,
}

pub struct TrackMetadataView {
    pub track_num: usize,
    pub name: Seq<char>,
    pub artist_id: Seq<char>,
    pub quality_version: Seq<char>,
    pub mobile_version: Seq<char>,
}

pub struct AlbumMetadataView {
    pub id: Seq<char>,
    pub name: Seq<char>,
    pub artist_id: Option<Seq<char>>,
    pub cover_art: Seq<char>,
    pub tracks: Seq<TrackMetadataView>,
}

pub struct ArtistMetadataView {
    pub id: Seq<char>,
    pub name: Seq<char>,
    pub picture: Seq<char>,
}

pub struct AlbumEntryView {
    pub dir: Seq<char>,
    pub metadata: AlbumMetadataView,
}

impl View for TrackMetadata {
    type V = TrackMetadataView;

    open spec fn view(&self) -> TrackMetadataView {
        TrackMetadataView {
            track_num: self.track_num,
            name: self.name@,
            artist_id: self.artist_id@,
            quality_version: self.quality_version@,
            mobile_version: self.mobile_version@,
        }
    }
}

impl View for AlbumMetadata {
    type V = AlbumMetadataView;

    open spec fn view(&self) -> AlbumMetadataView {
        AlbumMetadataView {
            id: self.id@,
            name: self.name@,
            artist_id: opt_text(self.artist_id),
            cover_art: self.cover_art@,
            tracks: self.tracks@.map_values(|t: TrackMetadata| t@),
        }
    }
}

impl View for ArtistMetadata {
    type V = ArtistMetadataView;

    open spec fn view(&self) -> ArtistMetadataView {
        ArtistMetadataView { id: self.id@, name: self.name@, picture: self.picture@ }
    }
}

impl View for AlbumEntry {
    type V = AlbumEntryView;

    open spec fn view(&self) -> AlbumEntryView {
        AlbumEntryView { dir: self.dir@, metadata: self.metadata@ }
    }
}

} // verus!
