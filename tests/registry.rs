use struc::collection::{Collection, CollectionError, Rendition};
use struc::ingest::EncodeMetadata;
use struc::records::{AlbumEntry, AlbumMetadata, ArtistMetadata, TrackMetadata};
use struc::tags::FormatMetadata;

fn fresh() -> Collection {
    Collection::new("/music".to_string(), Vec::new(), Vec::new()).unwrap()
}

fn wav() -> FormatMetadata {
    FormatMetadata { format_name: "wav".to_string(), bit_rate: "1411200".to_string(), tags: None }
}

fn meta(track: usize, title: &str, album: &str, album_artist: usize, artist: usize) -> EncodeMetadata {
    EncodeMetadata {
        track,
        title: title.to_string(),
        album: album.to_string(),
        album_artist,
        artist,
    }
}

fn is_id(s: &str) -> bool {
    let mut chars = s.chars();
    let first_ok = matches!(chars.next(), Some('a'..='z'));
    first_ok && s.len() <= 18 && chars.all(|c| c.is_ascii_digit() || c.is_ascii_lowercase())
}

#[test]
fn scenario_a_ingest_one_track() {
    let mut c = fresh();
    let alice = c.get_or_insert_artist("Alice");
    assert_eq!(alice, 0);
    let alice_id = c.artist_by_index(alice).unwrap().id().to_string();
    assert!(is_id(&alice_id));
    let (id, path) = c.generate_new_album();
    assert_eq!(path, format!("/music/albums/{}", id));
    let album = c.add_album(Some(alice_id.clone()), "Debut".to_string(), id.clone());
    assert_eq!(album, Some(0));

    let m = meta(1, "Intro", "Debut", alice, alice);
    let plan = c.plan_track(0, "/src/01 Intro.wav", &m, &wav()).unwrap();
    assert_eq!(plan.source_bit_rate, 1411200);
    assert_eq!(plan.quality.output, format!("/music/albums/{}/tracks/full/1.flac", id));
    assert_eq!(plan.mobile.output, format!("/music/albums/{}/tracks/mobile/1.mp3", id));
    c.link_track(0, &m, true, true).unwrap();

    let tracks = c.albums()[0].tracks();
    assert_eq!(tracks.len(), 1);
    assert_eq!(tracks[0].track_num(), 1);
    assert_eq!(tracks[0].name(), "Intro");
    assert_eq!(tracks[0].artist(), 0);
    assert_eq!(tracks[0].quality_version(), "1.flac");
    assert_eq!(tracks[0].mobile_version(), "1.mp3");

    let saved = c.album_records();
    let t = &saved[0].metadata.tracks[0];
    assert_eq!(t.track_num, 1);
    assert_eq!(t.name, "Intro");
    assert_eq!(t.artist_id, alice_id);
    assert_eq!(t.quality_version, "1.flac");
    assert_eq!(t.mobile_version, "1.mp3");
    assert_eq!(saved[0].metadata.artist_id, Some(alice_id));
}

#[test]
fn scenario_b_duplicate_album_name() {
    let mut c = fresh();
    let a = c.get_or_insert_artist("Alice");
    let b = c.get_or_insert_artist("Bob");
    let a_id = c.artist_by_index(a).unwrap().id().to_string();
    let b_id = c.artist_by_index(b).unwrap().id().to_string();
    assert_eq!(c.add_album(Some(a_id), "Debut".to_string(), "aaa".to_string()), Some(0));
    assert_eq!(c.add_album(Some(b_id), "Debut".to_string(), "bbb".to_string()), None);
    assert_eq!(c.albums().len(), 1);
    assert_eq!(c.albums()[0].id(), "aaa");
    assert!(c.get_album_by_name("Debut").is_some());
    assert!(c.get_album_by_name("debut").is_none());
}

#[test]
fn scenario_c_unsupported_format() {
    let mut c = fresh();
    let a = c.get_or_insert_artist("Alice");
    c.add_album(None, "Debut".to_string(), "aaa".to_string()).unwrap();
    let probe = FormatMetadata { format_name: "ogg".to_string(), bit_rate: "320000".to_string(), tags: None };
    let r = c.plan_track(0, "/src/a.ogg", &meta(1, "Intro", "Debut", a, a), &probe);
    match r {
        Err(CollectionError::UnsupportedFormat(f)) => assert_eq!(f, "ogg"),
        _ => panic!("expected UnsupportedFormat"),
    }
    assert_eq!(c.albums()[0].tracks().len(), 0);
}

#[test]
fn scenario_d_same_name_in_separate_records() {
    let records = vec![
        ArtistMetadata { id: "a1".to_string(), name: "Alice".to_string(), picture: String::new() },
        ArtistMetadata { id: "a2".to_string(), name: "Alice".to_string(), picture: String::new() },
    ];
    let mut c = Collection::new("/music".to_string(), records, Vec::new()).unwrap();
    assert_eq!(c.artist_count(), 2);
    assert_eq!(c.artist_by_index(0).unwrap().id(), "a1");
    assert_eq!(c.artist_by_index(1).unwrap().id(), "a2");
    assert_eq!(c.get_or_insert_artist("Alice"), 0);
    assert_eq!(c.artist_count(), 2);
}

#[test]
fn get_or_insert_artist_twice_same_index() {
    let mut c = fresh();
    let first = c.get_or_insert_artist("Alice");
    let second = c.get_or_insert_artist("Alice");
    assert_eq!(first, second);
    assert_eq!(c.artist_count(), 1);
    assert_eq!(c.get_or_insert_artist("Bob"), 1);
    assert_eq!(c.get_or_insert_artist("alice"), 2);
    assert_eq!(c.artist_by_index(0).unwrap().name(), "Alice");
    assert_eq!(c.artist_by_index(0).unwrap().picture(), "");
    assert!(c.artist_by_index(3).is_none());
}

#[test]
fn save_then_load_gives_same_collection() {
    let mut c = fresh();
    let a = c.get_or_insert_artist("Alice");
    let b = c.get_or_insert_artist("Bob");
    let a_id = c.artist_by_index(a).unwrap().id().to_string();
    c.add_album(Some(a_id), "Debut".to_string(), "d1".to_string()).unwrap();
    c.add_album(None, "Split".to_string(), "d2".to_string()).unwrap();
    c.link_track(0, &meta(1, "Intro", "Debut", a, a), true, true).unwrap();
    c.link_track(0, &meta(2, "Duet", "Debut", a, b), true, true).unwrap();
    c.link_track(1, &meta(7, "Seven", "Split", b, b), true, true).unwrap();

    let artists = c.artist_records();
    let albums = c.album_records();
    assert_eq!(albums[0].dir, "/music/albums/d1");
    let loaded = Collection::new("/music".to_string(), artists, albums).unwrap();

    assert_eq!(loaded.base(), c.base());
    assert_eq!(loaded.artist_count(), c.artist_count());
    for i in 0..c.artist_count() {
        let x = c.artist_by_index(i).unwrap();
        let y = loaded.artist_by_index(i).unwrap();
        assert_eq!((x.id(), x.name(), x.picture()), (y.id(), y.name(), y.picture()));
    }
    assert_eq!(loaded.albums().len(), 2);
    for (x, y) in c.albums().iter().zip(loaded.albums().iter()) {
        assert_eq!((x.id(), x.name(), x.path()), (y.id(), y.name(), y.path()));
        assert_eq!(x.tracks().len(), y.tracks().len());
        for (s, t) in x.tracks().iter().zip(y.tracks().iter()) {
            assert_eq!(s.track_num(), t.track_num());
            assert_eq!(s.name(), t.name());
            assert_eq!(s.artist(), t.artist());
            assert_eq!(s.quality_version(), t.quality_version());
            assert_eq!(s.mobile_version(), t.mobile_version());
        }
    }
    assert_eq!(loaded.albums()[0].tracks()[1].artist(), 1);
}

#[test]
fn load_rejects_unknown_artist_id() {
    let artists = vec![ArtistMetadata { id: "a1".to_string(), name: "Alice".to_string(), picture: String::new() }];
    let albums = vec![AlbumEntry {
        dir: "/music/albums/d1".to_string(),
        metadata: AlbumMetadata {
            id: "d1".to_string(),
            name: "Debut".to_string(),
            artist_id: None,
            cover_art: String::new(),
            tracks: vec![TrackMetadata {
                track_num: 1,
                name: "Intro".to_string(),
                artist_id: "zz".to_string(),
                quality_version: "1.flac".to_string(),
                mobile_version: "1.mp3".to_string(),
            }],
        },
    }];
    match Collection::new("/music".to_string(), artists, albums) {
        Err(CollectionError::UnknownArtistId(id)) => assert_eq!(id, "zz"),
        _ => panic!("expected UnknownArtistId"),
    }
}

#[test]
fn artist_by_id_finds_first() {
    let records = vec![
        ArtistMetadata { id: "a1".to_string(), name: "Alice".to_string(), picture: "p.png".to_string() },
        ArtistMetadata { id: "b2".to_string(), name: "Bob".to_string(), picture: String::new() },
    ];
    let c = Collection::new("/music".to_string(), records, Vec::new()).unwrap();
    assert_eq!(c.artist_by_id("b2").unwrap().name(), "Bob");
    assert_eq!(c.artist_by_id("a1").unwrap().picture(), "p.png");
    assert!(c.artist_by_id("c3").is_none());
}

#[test]
fn plan_track_encoder_arguments() {
    let mut c = fresh();
    let a = c.get_or_insert_artist("Alice");
    let b = c.get_or_insert_artist("Bob");
    c.add_album(None, "Debut".to_string(), "d1".to_string()).unwrap();
    let plan = c.plan_track(0, "/in/x.wav", &meta(12, "Song", "Debut", a, b), &wav()).unwrap();
    assert_eq!(plan.source, "/in/x.wav");
    assert_eq!(plan.quality.output_dir, "/music/albums/d1/tracks/full");
    assert_eq!(plan.mobile.output_dir, "/music/albums/d1/tracks/mobile");
    let tags = [
        "-metadata", "title=Song", "-metadata", "album=Debut", "-metadata", "album_artist=Alice",
        "-metadata", "artist=Bob", "-metadata", "track=12",
    ];
    let mut q: Vec<String> = vec!["-y".into(), "-i".into(), "/in/x.wav".into()];
    q.extend(tags.iter().map(|s| s.to_string()));
    let mut m = q.clone();
    q.push("/music/albums/d1/tracks/full/12.flac".to_string());
    m.push("-b:a".to_string());
    m.push("192k".to_string());
    m.push("/music/albums/d1/tracks/mobile/12.mp3".to_string());
    assert_eq!(plan.quality.args, q);
    assert_eq!(plan.mobile.args, m);
}

#[test]
fn plan_track_rejects_bad_bit_rate() {
    let mut c = fresh();
    let a = c.get_or_insert_artist("Alice");
    c.add_album(None, "Debut".to_string(), "d1".to_string()).unwrap();
    let probe = FormatMetadata { format_name: "wav".to_string(), bit_rate: "N/A".to_string(), tags: None };
    match c.plan_track(0, "/in/x.wav", &meta(1, "S", "Debut", a, a), &probe) {
        Err(CollectionError::BadBitRate(b)) => assert_eq!(b, "N/A"),
        _ => panic!("expected BadBitRate"),
    }
}

#[test]
fn plan_track_rejects_missing_artist() {
    let mut c = fresh();
    let a = c.get_or_insert_artist("Alice");
    c.add_album(None, "Debut".to_string(), "d1".to_string()).unwrap();
    match c.plan_track(0, "/in/x.wav", &meta(1, "S", "Debut", a, 5), &wav()) {
        Err(CollectionError::MissingArtistReference(i)) => assert_eq!(i, 5),
        _ => panic!("expected MissingArtistReference"),
    }
}

#[test]
fn link_track_failures_change_nothing() {
    let mut c = fresh();
    let a = c.get_or_insert_artist("Alice");
    c.add_album(None, "Debut".to_string(), "d1".to_string()).unwrap();
    let m = meta(1, "S", "Debut", a, a);
    assert!(matches!(c.link_track(0, &m, false, true), Err(CollectionError::EncodeFailed(Rendition::Quality))));
    assert!(matches!(c.link_track(0, &m, true, false), Err(CollectionError::EncodeFailed(Rendition::Mobile))));
    let bad = meta(1, "S", "Debut", a, 9);
    assert!(matches!(c.link_track(0, &bad, true, true), Err(CollectionError::MissingArtistReference(9))));
    assert_eq!(c.albums()[0].tracks().len(), 0);
    c.link_track(0, &m, true, true).unwrap();
    assert_eq!(c.albums()[0].tracks().len(), 1);
}

#[test]
fn artist_records_keep_order_and_fields() {
    let mut c = fresh();
    c.get_or_insert_artist("Alice");
    c.get_or_insert_artist("Bob");
    let r = c.artist_records();
    assert_eq!(r.len(), 2);
    assert_eq!(r[0].name, "Alice");
    assert_eq!(r[1].name, "Bob");
    assert_eq!(r[1].picture, "");
    assert_eq!(r[0].id, c.artist_by_index(0).unwrap().id());
}

#[test]
fn album_path_layout() {
    let c = fresh();
    assert_eq!(c.album_path("abc"), "/music/albums/abc");
}
