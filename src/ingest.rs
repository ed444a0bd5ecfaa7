//! The encoder runs that ingesting one track takes: a lossless rendition and
//! a 192 kbit/s rendition, both tagged with title, album, album artist,
//! artist and track number.
use vstd::prelude::*;
use crate::layout::{join, join_path, mobile_dir, mobile_file, mobile_file_name, quality_dir, quality_file, quality_file_name};
use crate::text::{decimal, usize_to_text};

verus! {

/// The resolved description of one track to ingest: its number, its title,
/// the album's name, and the positions in the artist registry of the album
/// artist and of the track's artist.
pub struct EncodeMetadata {
    pub track: usize,
    pub title: String,
    pub album: String,
    pub album_artist: usize,
    pub artist: usize,
}

/// One encoder run: the directory to create, the file it writes, and the
/// encoder's arguments.
pub struct EncodeJob {
    pub output_dir: String,
    pub output: String,
    pub args: Vec<String>,
}

/// The work that ingesting one source file takes.
pub struct TrackPlan {
    pub source: String,
    pub source_bit_rate: usize,
    pub quality: EncodeJob,
    pub mobile: EncodeJob,
}

pub struct EncodeMetadataView {
    pub track: usize,
    pub title: Seq<char>,
    pub album: Seq<char>,
    pub album_artist: usize,
    pub artist: usize,
}

pub struct EncodeJobView {
    pub output_dir: Seq<char>,
    pub output: Seq<char>,
    pub args: Seq<Seq<char>>,
}

pub struct TrackPlanView {
    pub source: Seq<char>,
    pub source_bit_rate: usize,
    pub quality: EncodeJobView,
    pub mobile: EncodeJobView,
}

pub open spec fn texts(v: Seq<String>) -> Seq<Seq<char>> {
    v.map_values(|s: String| s@)
}

impl View for EncodeMetadata {
    type V = EncodeMetadataView;

    open spec fn view(&self) -> EncodeMetadataView {
        EncodeMetadataView {
            track: self.track,
            title: self.title@,
            album: self.album@,
            album_artist: self.album_artist,
            artist: self.artist,
        }
    }
}

impl View for EncodeJob {
    type V = EncodeJobView;

    open spec fn view(&self) -> EncodeJobView {
        EncodeJobView { output_dir: self.output_dir@, output: self.output@, args: texts(self.args@) }
    }
}

impl View for TrackPlan {
    type V = TrackPlanView;

    open spec fn view(&self) -> TrackPlanView {
        TrackPlanView {
            source: self.source@,
            source_bit_rate: self.source_bit_rate,
            quality: self.quality@,
            mobile: self.mobile@,
        }
    }
}

/// The tag arguments that both encoder runs receive.
pub open spec fn tag_args(
    title: Seq<char>,
    album: Seq<char>,
    album_artist: Seq<char>,
    artist: Seq<char>,
    track: usize,
) -> Seq<Seq<char>> {
    seq![
        "-metadata"@,
        "title="@ + title,
        "-metadata"@,
        "album="@ + album,
        "-metadata"@,
        "album_artist="@ + album_artist,
        "-metadata"@,
        "artist="@ + artist,
        "-metadata"@,
        "track="@ + decimal(track as nat),
    ]
}

/// The arguments of the lossless encoder run.
pub open spec fn quality_args(input: Seq<char>, tags: Seq<Seq<char>>, output: Seq<char>) -> Seq<
    Seq<char>,
> {
    seq!["-y"@, "-i"@, input] + tags + seq![output]
}

/// The arguments of the reduced-bitrate encoder run.
pub open spec fn mobile_args(input: Seq<char>, tags: Seq<Seq<char>>, output: Seq<char>) -> Seq<
    Seq<char>,
> {
    seq!["-y"@, "-i"@, input] + tags + seq!["-b:a"@, "192k"@, output]
}

/// The plan for ingesting `source` as track `track` into the album
/// directory `album`, tagged with the given names.
pub open spec fn track_plan(
    album: Seq<char>,
    source: Seq<char>,
    bit_rate: usize,
    title: Seq<char>,
    album_name: Seq<char>,
    album_artist: Seq<char>,
    artist: Seq<char>,
    track: usize,
) -> TrackPlanView {
    let tags = tag_args(title, album_name, album_artist, artist, track);
    let q = join_path(quality_dir(album), quality_file(track));
    let m = join_path(mobile_dir(album), mobile_file(track));
    TrackPlanView {
        source,
        source_bit_rate: bit_rate,
        quality: EncodeJobView {
            output_dir: quality_dir(album),
            output: q,
            args: quality_args(source, tags, q),
        },
        mobile: EncodeJobView {
            output_dir: mobile_dir(album),
            output: m,
            args: mobile_args(source, tags, m),
        },
    }
}

fn push_text(v: &mut Vec<String>, s: &str)
    ensures
        texts(final(v)@) == texts(old(v)@).push(s@),
{
    let ghost before = v@;
    v.push(String::from_str(s));
    assert(texts(v@) =~= texts(before).push(s@));
}

fn push_tag(v: &mut Vec<String>, key: &str, value: &str)
    ensures
        texts(final(v)@) == texts(old(v)@).push("-metadata"@).push(key@ + value@),
{
    push_text(v, "-metadata");
    let mut s = String::from_str(key);
    s.append(value);
    push_text(v, s.as_str());
}

fn encode_args(
    input: &str,
    title: &str,
    album: &str,
    album_artist: &str,
    artist: &str,
    track: usize,
    output: &str,
    reduced: bool,
) -> (r: Vec<String>)
    ensures
        texts(r@) == if reduced {
            mobile_args(input@, tag_args(title@, album@, album_artist@, artist@, track), output@)
        } else {
            quality_args(input@, tag_args(title@, album@, album_artist@, artist@, track), output@)
        },
{
    let mut v: Vec<String> = Vec::new();
    push_text(&mut v, "-y");
    push_text(&mut v, "-i");
    push_text(&mut v, input);
    push_tag(&mut v, "title=", title);
    push_tag(&mut v, "album=", album);
    push_tag(&mut v, "album_artist=", album_artist);
    push_tag(&mut v, "artist=", artist);
    let num = usize_to_text(track);
    push_tag(&mut v, "track=", num.as_str());
    if reduced {
        push_text(&mut v, "-b:a");
        push_text(&mut v, "192k");
    }
    push_text(&mut v, output);
    let ghost tags = tag_args(title@, album@, album_artist@, artist@, track);
    if reduced {
        assert(texts(v@) =~= mobile_args(input@, tags, output@));
    } else {
        assert(texts(v@) =~= quality_args(input@, tags, output@));
    }
    v
}

/// The plan for ingesting `source` as track `track` into the album
/// directory `album`.
pub fn make_track_plan(
    album: &str,
    source: &str,
    bit_rate: usize,
    title: &str,
    album_name: &str,
    album_artist: &str,
    artist: &str,
    track: usize,
) -> (r: TrackPlan)
    ensures
        r@ == track_plan(
            album@,
            source@,
            bit_rate,
            title@,
            album_name@,
            album_artist@,
            artist@,
            track,
        ),
{
    let tracks = join(album, "tracks");
    let full = join(tracks.as_str(), "full");
    let mobile = join(tracks.as_str(), "mobile");
    let q_name = quality_file_name(track);
    let m_name = mobile_file_name(track);
    let q = join(full.as_str(), q_name.as_str());
    let m = join(mobile.as_str(), m_name.as_str());
    let q_args = encode_args(source, title, album_name, album_artist, artist, track, q.as_str(), false);
    let m_args = encode_args(source, title, album_name, album_artist, artist, track, m.as_str(), true);
    TrackPlan {
        source: String::from_str(source),
        source_bit_rate: bit_rate,
        quality: EncodeJob { output_dir: full, output: q, args: q_args },
        mobile: EncodeJob { output_dir: mobile, output: m, args: m_args },
    }
}

} // verus!
