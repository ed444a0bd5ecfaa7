//! What a media probe reports of a source file, and the rules that read it.
use vstd::prelude::*;
use vstd::string::*;
use crate::text::{before_slash, opt_text, parse_usize, parse_usize_spec, text_before_slash, text_eq};

verus! {

/// The tags embedded in a source file.
pub struct TagsMetadata {
    pub title: String,
    pub artist: String,
    pub album: String,
    pub track: Option<String>,
    pub disc: Option<String>,
    pub album_artist: Option<String>,
}

/// The container format, bit rate and tags of a source file.
pub struct FormatMetadata {
    pub format_name: String,
    pub bit_rate: String,
    pub tags: Option<TagsMetadata>,
}

/// The track number of a `track` tag such as `3` or `3/12`.
pub open spec fn tag_track_number(track: Option<Seq<char>>) -> Option<usize> {
    match track {
        Some(t) => parse_usize_spec(before_slash(t)),
        None => None,
    }
}

/// The album name shown for a disc: the album's own name on the first disc
/// or when no disc is tagged, else the name followed by ` (Disc n)`.
pub open spec fn disc_album_name(album: Seq<char>, disc: Option<Seq<char>>) -> Seq<char> {
    match disc {
        None => album,
        Some(d) => {
            let left = before_slash(d);
            if left == seq!['1'] {
                album
            } else {
                album + " (Disc "@ + left + ")"@
            }
        },
    }
}

/// The one format that ingestion accepts.
pub open spec fn is_ingest_format(name: Seq<char>) -> bool {
    name == "wav"@
}

/// The formats that a scan of a directory keeps.
pub open spec fn is_scan_format(name: Seq<char>) -> bool {
    name == "flac"@ || name == "mov,mp4,m4a,3gp,3g2,mj2"@ || name == "mp3"@
}

impl TagsMetadata {
    /// The track number, read from the part of the `track` tag before `/`.
    pub fn track(&self) -> (r: Option<usize>)
        ensures
            r == tag_track_number(opt_text(self.track)),
    {
        match &self.track {
            Some(t) => {
                let left = text_before_slash(t.as_str());
                parse_usize(left.as_str())
            },
            None => None,
        }
    }

    /// The album name, with the disc number added past the first disc.
    pub fn album(&self) -> (r: String)
        ensures
            r@ == disc_album_name(self.album@, opt_text(self.disc)),
    {
        match &self.disc {
            None => self.album.clone(),
            Some(d) => {
                let left = text_before_slash(d.as_str());
                proof {
                    reveal_strlit("1");
                }
                if text_eq(left.as_str(), "1") {
                    assert(left@ =~= seq!['1']);
                    self.album.clone()
                } else {
                    assert(left@ != seq!['1']) by {
                        assert("1"@ =~= seq!['1']);
                    }
                    let mut s = self.album.clone();
                    s.append(" (Disc ");
                    s.append(left.as_str());
                    s.append(")");
                    s
                }
            },
        }
    }
}

/// Whether ingestion accepts a file of this container format.
pub fn is_ingest_format_name(name: &str) -> (r: bool)
    ensures
        r == is_ingest_format(name@),
{
    text_eq(name, "wav")
}

/// Whether a scan of a directory keeps a file of this container format;
/// others are skipped with a warning.
pub fn is_scan_format_name(name: &str) -> (r: bool)
    ensures
        r == is_scan_format(name@),
{
    text_eq(name, "flac") || text_eq(name, "mov,mp4,m4a,3gp,3g2,mj2") || text_eq(name, "mp3")
}

} // verus!
