//! The decisions of a directory scan that drafts an import definition: which
//! file names carry a track number, and the ordered track list that the
//! scanned files give.
use vstd::prelude::*;
use crate::tags::TagsMetadata;
use crate::text::{parse_usize, parse_usize_spec};

verus! {

/// File names such as `01 - Intro.flac`: a track number, a separator of
/// spaces or dashes, the title, and an extension.
pub const TRACK_FILE_PATTERN: &'static str = "(\\d+)[\\s-]+(.*)\\.\\w+";

/// The texts of capture groups 1 and 2 of the leftmost match of the regular
/// expression `pattern` in `text`; `None` where the pattern does not
/// compile, nothing matches, or a group takes no part.
pub uninterp spec fn first_two_groups(pattern: Seq<char>, text: Seq<char>) -> Option<
    (Seq<char>, Seq<char>),
>;

pub open spec fn pair_view(r: Option<(String, String)>) -> Option<(Seq<char>, Seq<char>)> {
    match r {
        Some((a, b)) => Some((a@, b@)),
        None => None,
    }
}

/// Relies on the regex crate: `Regex::new(pattern)`, then `captures(text)`
/// and `Captures::get` of groups 1 and 2, each as its `&str`. The result
/// depends on the two strings alone.
#[verifier::external_body]
fn capture_two_groups(pattern: &str, text: &str) -> (r: Option<(String, String)>)
    ensures
        pair_view(r) == first_two_groups(pattern@, text@),
{
    let caps = regex::Regex::new(pattern).ok()?.captures(text)?;
    let first = caps.get(1)?.as_str().to_string();
    let second = caps.get(2)?.as_str().to_string();
    Some((first, second))
}

/// Why a scan failed.
#[derive(Debug)]
pub enum ScanError {
    /// A file name's track number does not fit in a `usize`.
    BadTrackNumber(String),
}

/// What the track-file pattern reads from a file name: its track number and
/// its title, or `None` where the name does not match. A number that does
/// not fit is an error.
pub open spec fn track_file_name(name: Seq<char>) -> Result<Option<(usize, Seq<char>)>, Seq<char>> {
    match first_two_groups(TRACK_FILE_PATTERN@, name) {
        None => Ok(None),
        Some((digits, title)) => match parse_usize_spec(digits) {
            Some(n) => Ok(Some((n, title))),
            None => Err(digits),
        },
    }
}

/// Reads the track number and the title from a file name such as
/// `01 - Intro.flac`.
pub fn parse_track_file_name(name: &str) -> (r: Result<Option<(usize, String)>, ScanError>)
    ensures
        track_file_name(name@) == match r {
            Ok(None) => Ok(None),
            Ok(Some((n, t))) => Ok(Some((n, t@))),
            Err(ScanError::BadTrackNumber(d)) => Err(d@),
        },
{
    match capture_two_groups(TRACK_FILE_PATTERN, name) {
        None => Ok(None),
        Some((digits, title)) => match parse_usize(digits.as_str()) {
            Some(n) => Ok(Some((n, title))),
            None => Err(ScanError::BadTrackNumber(digits)),
        },
    }
}

/// A scanned source file whose name carried a track number.
pub struct ScannedTrack {
    pub num: usize,
    pub file_title: String,
    pub file_name: String,
    pub tags: Option<TagsMetadata>,
}

/// One track of an import definition.
pub struct TrackDef {
    pub num: usize,
    pub name: String,
    pub filename: String,
    pub artist: Option<String>,
}

pub struct TrackDefView {
    pub num: usize,
    pub name: Seq<char>,
    pub filename: Seq<char>,
    pub artist: Option<Seq<char>>,
}

impl View for TrackDef {
    type V = TrackDefView;

    open spec fn view(&self) -> TrackDefView {
        TrackDefView {
            num: self.num,
            name: self.name@,
            filename: self.filename@,
            artist: match self.artist {
                Some(a) => Some(a@),
                None => None,
            },
        }
    }
}

/// The definition of a scanned track: the tagged title, else the title in
/// the file name; the tagged artist, else the album artist.
pub open spec fn def_of(s: ScannedTrack, album_artist: Seq<char>) -> TrackDefView {
    TrackDefView {
        num: s.num,
        name: match s.tags {
            Some(t) => t.title@,
            None => s.file_title@,
        },
        filename: s.file_name@,
        artist: Some(
            match s.tags {
                Some(t) => t.artist@,
                None => album_artist,
            },
        ),
    }
}

/// `k` is the last of the first `p` scanned tracks with number `n`.
pub open spec fn last_with_num(files: Seq<ScannedTrack>, p: int, n: usize, k: int) -> bool {
    &&& 0 <= k < p
    &&& files[k].num == n
    &&& forall|j: int| k < j < p ==> #[trigger] files[j].num != n
}

/// `defs` is the track list of the first `p` scanned tracks: ordered by
/// strictly increasing number, one entry for each number, made from the
/// last scanned track with that number.
pub open spec fn is_track_list(
    files: Seq<ScannedTrack>,
    p: int,
    album_artist: Seq<char>,
    defs: Seq<TrackDefView>,
) -> bool {
    &&& forall|i: int, j: int| 0 <= i < j < defs.len() ==> #[trigger] defs[i].num < #[trigger] defs[j].num
    &&& forall|i: int|
        0 <= i < defs.len() ==> exists|k: int|
            last_with_num(files, p, defs[i].num, k) && #[trigger] defs[i] == def_of(
                files[k],
                album_artist,
            )
    &&& forall|k: int| 0 <= k < p ==> lists_num(defs, #[trigger] files[k].num)
}

/// Some entry of `defs` has number `n`.
pub open spec fn lists_num(defs: Seq<TrackDefView>, n: usize) -> bool {
    exists|i: int| 0 <= i < defs.len() && #[trigger] defs[i].num == n
}

fn def_from(s: &ScannedTrack, album_artist: &str) -> (r: TrackDef)
    ensures
        r@ == def_of(*s, album_artist@),
{
    match &s.tags {
        Some(t) => TrackDef {
            num: s.num,
            name: t.title.clone(),
            filename: s.file_name.clone(),
            artist: Some(t.artist.clone()),
        },
        None => TrackDef {
            num: s.num,
            name: s.file_title.clone(),
            filename: s.file_name.clone(),
            artist: Some(String::from_str(album_artist)),
        },
    }
}

pub open spec fn defs_view(v: Seq<TrackDef>) -> Seq<TrackDefView> {
    v.map_values(|d: TrackDef| d@)
}

/// The track list of an import definition drafted from scanned files: one
/// entry per track number, ordered by number, where a later file with the
/// same number replaces an earlier one.
#[verifier::loop_isolation(false)]
pub fn build_track_defs(files: &Vec<ScannedTrack>, album_artist: &str) -> (r: Vec<TrackDef>)
    ensures
        is_track_list(files@, files@.len() as int, album_artist@, defs_view(r@)),
{
    let mut defs: Vec<TrackDef> = Vec::new();
    let mut p: usize = 0;
    while p < files.len()
        invariant
            p <= files@.len(),
            is_track_list(files@, p as int, album_artist@, defs_view(defs@)),
        decreases files@.len() - p,
    {
        let f = &files[p];
        let n = f.num;
        let ghost old_defs = defs_view(defs@);
        let mut pos: usize = 0;
        while pos < defs.len() && defs[pos].num < n
            invariant
                pos <= defs@.len(),
                defs_view(defs@) == old_defs,
                forall|i: int| 0 <= i < pos ==> #[trigger] old_defs[i].num < n,
            decreases defs@.len() - pos,
        {
            pos = pos + 1;
        }
        let d = def_from(f, album_artist);
        proof {
            lemma_prefix_extends(files@, p as int, n);
        }
        assert(pos < defs@.len() ==> defs@[pos as int]@ == old_defs[pos as int]);
        if pos < defs.len() && defs[pos].num == n {
            let ghost dv = d@;
            defs.set(pos, d);
            assert(defs_view(defs@) =~= old_defs.update(pos as int, dv));
            proof {
                lemma_replace(files@, p as int, album_artist@, old_defs, pos as int, defs_view(defs@));
            }
        } else {
            let ghost dv = d@;
            defs.insert(pos, d);
            assert(defs_view(defs@) =~= old_defs.insert(pos as int, dv));
            proof {
                lemma_insert(files@, p as int, album_artist@, old_defs, pos as int, defs_view(defs@));
            }
        }
        p = p + 1;
    }
    defs
}

proof fn lemma_prefix_extends(files: Seq<ScannedTrack>, p: int, n: usize)
    requires
        0 <= p < files.len(),
        files[p].num == n,
    ensures
        last_with_num(files, p + 1, n, p),
{
}

proof fn lemma_replace(
    files: Seq<ScannedTrack>,
    p: int,
    album_artist: Seq<char>,
    old_defs: Seq<TrackDefView>,
    pos: int,
    new_defs: Seq<TrackDefView>,
)
    requires
        0 <= p < files.len(),
        is_track_list(files, p, album_artist, old_defs),
        0 <= pos < old_defs.len(),
        old_defs[pos].num == files[p].num,
        new_defs == old_defs.update(pos, def_of(files[p], album_artist)),
    ensures
        is_track_list(files, p + 1, album_artist, new_defs),
{
    let n = files[p].num;
    assert forall|i: int, j: int| 0 <= i < j < new_defs.len() implies #[trigger] new_defs[i].num
        < #[trigger] new_defs[j].num by {
        assert(old_defs[i].num < old_defs[j].num);
    }
    assert forall|i: int| 0 <= i < new_defs.len() implies exists|k: int|
        last_with_num(files, p + 1, new_defs[i].num, k) && #[trigger] new_defs[i] == def_of(
            files[k],
            album_artist,
        ) by {
        if i == pos {
            assert(last_with_num(files, p + 1, n, p));
        } else {
            let k = choose|k: int|
                last_with_num(files, p, old_defs[i].num, k) && #[trigger] old_defs[i] == def_of(
                    files[k],
                    album_artist,
                );
            if i < pos {
                assert(old_defs[i].num < old_defs[pos].num);
            } else {
                assert(old_defs[pos].num < old_defs[i].num);
            }
            assert(last_with_num(files, p + 1, new_defs[i].num, k));
        }
    }
    assert forall|k: int| 0 <= k < p + 1 implies lists_num(new_defs, #[trigger] files[k].num) by {
        if k == p {
            assert(new_defs[pos].num == files[k].num);
        } else {
            let i = choose|i: int| 0 <= i < old_defs.len() && #[trigger] old_defs[i].num == files[k].num;
            assert(new_defs[i].num == files[k].num);
        }
    }
}

proof fn lemma_insert(
    files: Seq<ScannedTrack>,
    p: int,
    album_artist: Seq<char>,
    old_defs: Seq<TrackDefView>,
    pos: int,
    new_defs: Seq<TrackDefView>,
)
    requires
        0 <= p < files.len(),
        is_track_list(files, p, album_artist, old_defs),
        0 <= pos <= old_defs.len(),
        forall|i: int| 0 <= i < pos ==> #[trigger] old_defs[i].num < files[p].num,
        pos < old_defs.len() ==> old_defs[pos].num > files[p].num,
        new_defs == old_defs.insert(pos, def_of(files[p], album_artist)),
    ensures
        is_track_list(files, p + 1, album_artist, new_defs),
{
    let n = files[p].num;
    assert forall|i: int| 0 <= i < old_defs.len() implies #[trigger] old_defs[i].num != n by {
        if i >= pos && pos < old_defs.len() && i > pos {
            assert(old_defs[pos].num < old_defs[i].num);
        }
    }
    assert forall|i: int, j: int| 0 <= i < j < new_defs.len() implies #[trigger] new_defs[i].num
        < #[trigger] new_defs[j].num by {
        if j < pos {
            assert(old_defs[i].num < old_defs[j].num);
        } else if i < pos && j == pos {
        } else if i < pos && j > pos {
            assert(old_defs[i].num < old_defs[j - 1].num);
        } else if i == pos {
            if j - 1 > pos {
                assert(old_defs[pos].num < old_defs[j - 1].num);
            }
        } else {
            assert(old_defs[i - 1].num < old_defs[j - 1].num);
        }
    }
    assert forall|i: int| 0 <= i < new_defs.len() implies exists|k: int|
        last_with_num(files, p + 1, new_defs[i].num, k) && #[trigger] new_defs[i] == def_of(
            files[k],
            album_artist,
        ) by {
        if i == pos {
            assert(last_with_num(files, p + 1, n, p));
        } else {
            let oi = if i < pos {
                i
            } else {
                i - 1
            };
            assert(new_defs[i] == old_defs[oi]);
            let k = choose|k: int|
                last_with_num(files, p, old_defs[oi].num, k) && #[trigger] old_defs[oi] == def_of(
                    files[k],
                    album_artist,
                );
            assert(old_defs[oi].num != n);
            assert(last_with_num(files, p + 1, new_defs[i].num, k));
        }
    }
    assert forall|k: int| 0 <= k < p + 1 implies lists_num(new_defs, #[trigger] files[k].num) by {
        if k == p {
            assert(new_defs[pos].num == files[k].num);
        } else {
            let i = choose|i: int| 0 <= i < old_defs.len() && #[trigger] old_defs[i].num == files[k].num;
            if i < pos {
                assert(new_defs[i].num == files[k].num);
            } else {
                assert(new_defs[i + 1].num == files[k].num);
            }
        }
    }
}

} // verus!
