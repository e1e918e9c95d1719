//! Records exchanged with the scan and search collaborators.
use vstd::prelude::*;

use crate::similarity::{chars_of, lower_of, lowercase};

verus! {

/// A local music file and the tags known or inferred for it.
#[derive(Debug, Clone)]
pub struct MetadataItem {
    pub path: String,
    pub title: String,
    pub artist: String,
    pub album: String,
    pub track: String,
    pub year: String,
}

/// One entry of a candidate's track listing.
#[derive(Debug, Clone)]
pub struct TrackInfo {
    pub position: String,
    pub title: String,
}

/// One candidate match returned by a metadata provider.
#[derive(Debug, Clone)]
pub struct ProviderResult {
    pub provider: String,
    pub title: String,
    pub artist: String,
    pub album: String,
    pub year: String,
    /// Match score in units of `SCORE_SCALE` (higher is better).
    pub score: u64,
    pub tracks: Vec<TrackInfo>,
}

/// The file extensions (case-folded) of the audio files a scan keeps.
pub open spec fn music_extension(ext: Seq<char>) -> bool {
    ||| ext == "mp3"@
    ||| ext == "flac"@
    ||| ext == "m4a"@
    ||| ext == "ogg"@
    ||| ext == "wav"@
}

fn text_equals(a: &str, b: &str) -> (r: bool)
    ensures
        r == (a@ == b@),
{
    let av = chars_of(a);
    let bv = chars_of(b);
    if av.len() != bv.len() {
        return false;
    }
    let mut i: usize = 0;
    while i < av.len()
        invariant
            av@ == a@,
            bv@ == b@,
            av@.len() == bv@.len(),
            i <= av@.len(),
            forall|q: int| 0 <= q < i ==> av@[q] == bv@[q],
        decreases av@.len() - i,
    {
        if av[i] != bv[i] {
            return false;
        }
        i = i + 1;
    }
    assert(av@ =~= bv@);
    true
}

/// Whether an already case-folded extension names an audio file.
pub fn is_folded_music_extension(ext: &str) -> (r: bool)
    ensures
        r == music_extension(ext@),
{
    proof {
        reveal_strlit("mp3");
        reveal_strlit("flac");
        reveal_strlit("m4a");
        reveal_strlit("ogg");
        reveal_strlit("wav");
    }
    text_equals(ext, "mp3") || text_equals(ext, "flac") || text_equals(ext, "m4a")
        || text_equals(ext, "ogg") || text_equals(ext, "wav")
}

/// Whether a file extension, in any letter case, names an audio file.
pub fn is_music_extension(ext: &str) -> (r: bool)
    ensures
        r == music_extension(lower_of(ext@)),
{
    let folded = lowercase(ext);
    is_folded_music_extension(folded.as_str())
}

} // verus!
