use struc::scan::{build_track_defs, parse_track_file_name, ScanError, ScannedTrack};
use struc::tags::TagsMetadata;

fn scanned(num: usize, title: &str, file: &str, tagged: Option<(&str, &str)>) -> ScannedTrack {
    ScannedTrack {
        num,
        file_title: title.to_string(),
        file_name: file.to_string(),
        tags: tagged.map(|(t, a)| TagsMetadata {
            title: t.to_string(),
            artist: a.to_string(),
            album: "Album".to_string(),
            track: None,
            disc: None,
            album_artist: None,
        }),
    }
}

#[test]
fn file_names_with_track_numbers() {
    assert_eq!(parse_track_file_name("01 - Intro.flac").unwrap(), Some((1, "Intro".to_string())));
    assert_eq!(parse_track_file_name("03-Song Name.mp3").unwrap(), Some((3, "Song Name".to_string())));
    assert_eq!(parse_track_file_name("12 A.b.m4a").unwrap(), Some((12, "A.b".to_string())));
    assert_eq!(parse_track_file_name("cover.jpg").unwrap(), None);
    assert_eq!(parse_track_file_name("Intro.flac").unwrap(), None);
}

#[test]
fn file_name_number_too_large() {
    match parse_track_file_name("99999999999999999999999 - x.mp3") {
        Err(ScanError::BadTrackNumber(d)) => assert_eq!(d, "99999999999999999999999"),
        other => panic!("unexpected {:?}", other),
    }
}

#[test]
fn track_defs_sorted_last_wins() {
    let files = vec![
        scanned(3, "Three", "03 - Three.flac", None),
        scanned(1, "One", "01 - One.flac", Some(("First", "Bob"))),
        scanned(3, "Again", "03 - Again.mp3", None),
        scanned(2, "Two", "02 - Two.flac", None),
    ];
    let defs = build_track_defs(&files, "Alice");
    let nums: Vec<usize> = defs.iter().map(|d| d.num).collect();
    assert_eq!(nums, vec![1, 2, 3]);
    assert_eq!(defs[0].name, "First");
    assert_eq!(defs[0].artist.as_deref(), Some("Bob"));
    assert_eq!(defs[1].name, "Two");
    assert_eq!(defs[1].artist.as_deref(), Some("Alice"));
    assert_eq!(defs[2].name, "Again");
    assert_eq!(defs[2].filename, "03 - Again.mp3");
}

#[test]
fn track_defs_empty() {
    assert!(build_track_defs(&Vec::new(), "Alice").is_empty());
}
