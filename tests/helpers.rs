use struc::catalog;
use struc::ids::create_id;
use struc::layout::{album_file_path, artists_file_path, join, mobile_file_name, quality_file_name};
use struc::library::Collection as Library;
use struc::metadata::{self, Album, Artist, Timestamp, Track, TrackFiles};
use struc::tags::{is_ingest_format_name, is_scan_format_name, TagsMetadata};
use struc::text::{parse_usize, text_before_slash, text_eq, usize_to_text};

fn tags(track: Option<&str>, disc: Option<&str>) -> TagsMetadata {
    TagsMetadata {
        title: "T".to_string(),
        artist: "A".to_string(),
        album: "Live".to_string(),
        track: track.map(|s| s.to_string()),
        disc: disc.map(|s| s.to_string()),
        album_artist: None,
    }
}

#[test]
fn parse_usize_values() {
    assert_eq!(parse_usize("1411200"), Some(1411200));
    assert_eq!(parse_usize("+7"), Some(7));
    assert_eq!(parse_usize("007"), Some(7));
    assert_eq!(parse_usize(""), None);
    assert_eq!(parse_usize("+"), None);
    assert_eq!(parse_usize("12a"), None);
    assert_eq!(parse_usize("-1"), None);
    assert_eq!(parse_usize(&usize::MAX.to_string()), Some(usize::MAX));
    assert_eq!(parse_usize("99999999999999999999999"), None);
}

#[test]
fn usize_to_text_values() {
    assert_eq!(usize_to_text(0), "0");
    assert_eq!(usize_to_text(9), "9");
    assert_eq!(usize_to_text(10), "10");
    assert_eq!(usize_to_text(1234), "1234");
    assert_eq!(usize_to_text(usize::MAX), usize::MAX.to_string());
}

#[test]
fn text_helpers() {
    assert!(text_eq("wav", "wav"));
    assert!(!text_eq("wav", "wave"));
    assert!(!text_eq("wav", "WAV"));
    assert_eq!(text_before_slash("3/12"), "3");
    assert_eq!(text_before_slash("12"), "12");
    assert_eq!(text_before_slash("/x"), "");
}

#[test]
fn track_tag_numbers() {
    assert_eq!(tags(Some("3/12"), None).track(), Some(3));
    assert_eq!(tags(Some("7"), None).track(), Some(7));
    assert_eq!(tags(Some("x/12"), None).track(), None);
    assert_eq!(tags(None, None).track(), None);
}

#[test]
fn album_name_with_disc() {
    assert_eq!(tags(None, None).album(), "Live");
    assert_eq!(tags(None, Some("1/2")).album(), "Live");
    assert_eq!(tags(None, Some("1")).album(), "Live");
    assert_eq!(tags(None, Some("2/2")).album(), "Live (Disc 2)");
    assert_eq!(tags(None, Some("3")).album(), "Live (Disc 3)");
}

#[test]
fn format_names() {
    assert!(is_ingest_format_name("wav"));
    assert!(!is_ingest_format_name("ogg"));
    assert!(!is_ingest_format_name("flac"));
    assert!(is_scan_format_name("flac"));
    assert!(is_scan_format_name("mp3"));
    assert!(is_scan_format_name("mov,mp4,m4a,3gp,3g2,mj2"));
    assert!(!is_scan_format_name("ogg"));
    assert!(!is_scan_format_name("wav"));
}

#[test]
fn ids_are_short_lowercase() {
    let a = create_id();
    let b = create_id();
    assert_ne!(a, b);
    for id in [a, b] {
        assert!(!id.is_empty() && id.len() <= 18);
        assert!(id.chars().next().unwrap().is_ascii_lowercase());
        assert!(id.chars().all(|c| c.is_ascii_digit() || c.is_ascii_lowercase()));
    }
}

#[test]
fn layout_paths() {
    assert_eq!(join("/m", "albums"), "/m/albums");
    assert_eq!(album_file_path("/m/albums/x"), "/m/albums/x/album.json");
    assert_eq!(artists_file_path("/m"), "/m/artists.json");
    assert_eq!(quality_file_name(3), "3.flac");
    assert_eq!(mobile_file_name(10), "10.mp3");
}

#[test]
fn metadata_constructors() {
    let files = TrackFiles::new("1.flac".to_string(), "1.mp3".to_string());
    let mut t = Track::new("t1".to_string(), 1, "Intro".to_string(), "a1".to_string(), files);
    assert_eq!(t.num, 1);
    assert!(t.cover_art.is_none());
    assert_eq!(t.changed, Timestamp(0));
    t.set_cover_art("c.png".to_string());
    assert_eq!(t.cover_art.as_deref(), Some("c.png"));
    assert_eq!(t.files.quality, "1.flac");

    let mut album = Album::new("b1".to_string(), "Debut".to_string());
    assert_eq!(album.add_track(t), Some(()));
    assert_eq!(album.tracks.len(), 1);
    album.set_cover_art("cover.png".to_string());
    assert_eq!(album.cover_art.as_deref(), Some("cover.png"));

    let mut artist = Artist::new_with_albums("a1".to_string(), "Alice".to_string(), vec![album]);
    assert!(artist.picture.is_none());
    artist.set_picture("p.png".to_string());
    assert_eq!(artist.picture.as_deref(), Some("p.png"));
    assert_eq!(artist.albums.len(), 1);
    assert!(Artist::new("a2".to_string(), "Bob".to_string()).albums.is_empty());
    let c = metadata::Collection::new(vec![artist]);
    assert_eq!(c.artists.len(), 1);
}

#[test]
fn library_registry() {
    let mut lib = Library::from_metadata("/srv".to_string(), metadata::Collection::new(Vec::new()));
    lib.verify();
    let i = lib.get_or_insert_artist("Alice", || Artist::new("a1".to_string(), "Alice".to_string()));
    assert_eq!(i, 0);
    let j = lib.get_or_insert_artist("Alice", || Artist::new("zz".to_string(), "Alice".to_string()));
    assert_eq!(j, 0);
    assert_eq!(lib.artist_by_index(0).unwrap().id, "a1");
    assert!(lib.artist_by_index(1).is_none());
    assert!(!lib.album_with_name_exists(0, "Debut"));
    assert_eq!(lib.add_album(0, Album::new("b1".to_string(), "Debut".to_string())), Some(()));
    assert!(lib.album_with_name_exists(0, "Debut"));
    assert!(!lib.album_with_name_exists(1, "Debut"));
    assert_eq!(lib.add_album(4, Album::new("b2".to_string(), "Other".to_string())), None);
    assert_eq!(lib.track_dir(), "/srv/tracks");
    assert_eq!(lib.metadata_file(), "/srv/collection.json");
    assert_eq!(lib.metadata().artists[0].albums.len(), 1);
    assert_eq!(lib.base(), "/srv");
}

#[test]
fn catalog_default_pictures() {
    let a = catalog::Artist::from_row("a".to_string(), "Alice".to_string(), None);
    assert_eq!(a.picture, catalog::DEFAULT_ARTIST_IMAGE);
    let b = catalog::Album::from_row("b".to_string(), "Debut".to_string(), Some("/x.png".to_string()));
    assert_eq!(b.picture, "/x.png");
    let c = catalog::Album::from_row("c".to_string(), "Two".to_string(), None);
    assert_eq!(c.picture, "/images/album_default.png");
    let item = catalog::FetchAllAlbumItem::new(c, "Bob".to_string());
    assert_eq!(item.artist_name(), "Bob");
    assert_eq!(item.album().name, "Two");
}
