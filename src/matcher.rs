//! Field scorer and track-list scorer.
use vstd::prelude::*;

use crate::similarity::{similarity, text_similarity, SCORE_SCALE};

verus! {

/// The comparable fields of a record or of one track: each may be absent.
pub struct FieldRecord {
    pub title: Option<String>,
    pub artist: Option<String>,
}

impl FieldRecord {
    pub open spec fn title_view(&self) -> Option<Seq<char>> {
        match self.title {
            Some(t) => Some(t@),
            None => None,
        }
    }

    pub open spec fn artist_view(&self) -> Option<Seq<char>> {
        match self.artist {
            Some(t) => Some(t@),
            None => None,
        }
    }
}

/// The similarity of one field, when it is present on both sides.
pub open spec fn field_similarity(s: Option<Seq<char>>, t: Option<Seq<char>>) -> Option<nat> {
    match (s, t) {
        (Some(x), Some(y)) => Some(text_similarity(x, y)),
        _ => None,
    }
}

pub open spec fn present_count(x: Option<nat>) -> nat {
    if x is Some { 1 } else { 0 }
}

pub open spec fn present_value(x: Option<nat>) -> nat {
    match x {
        Some(v) => v,
        None => 0,
    }
}

/// Mean of the per-field similarities over the fields present on both
/// sides, rounded down; zero when no field is comparable.
pub open spec fn score_fields_spec(source: FieldRecord, target: FieldRecord) -> nat {
    let t = field_similarity(source.title_view(), target.title_view());
    let a = field_similarity(source.artist_view(), target.artist_view());
    let n = present_count(t) + present_count(a);
    if n == 0 {
        0
    } else {
        (present_value(t) + present_value(a)) / n
    }
}

/// The field scorer restricted to the title, as used for one pair of tracks.
pub open spec fn title_score(source: FieldRecord, target: FieldRecord) -> nat {
    present_value(field_similarity(source.title_view(), target.title_view()))
}

/// The score of slot `i`: the title score of the pair at that position, or
/// zero where the target list has no element there.
pub open spec fn slot_score(source: Seq<FieldRecord>, target: Seq<FieldRecord>, i: int) -> nat {
    if 0 <= i < target.len() {
        title_score(source[i], target[i])
    } else {
        0
    }
}

/// Sum of the scores of the first `n` slots.
pub open spec fn slots_total(source: Seq<FieldRecord>, target: Seq<FieldRecord>, n: nat) -> nat
    decreases n,
{
    if n == 0 {
        0
    } else {
        slots_total(source, target, (n - 1) as nat) + slot_score(source, target, n - 1)
    }
}

/// The lengths disagree by more than a fifth of the source length (an
/// empty source only matches an empty target).
pub open spec fn length_gap_too_large(source_len: nat, target_len: nat) -> bool {
    let gap: int = if source_len >= target_len {
        source_len - target_len
    } else {
        target_len - source_len
    };
    if source_len == 0 {
        target_len != 0
    } else {
        5 * gap > source_len
    }
}

/// Positional track-list score: zero when the lengths disagree too much or
/// the source is empty, else the sum of slot scores divided by the source
/// length, rounded down.
pub open spec fn score_tracks_spec(source: Seq<FieldRecord>, target: Seq<FieldRecord>) -> nat {
    if length_gap_too_large(source.len(), target.len()) || source.len() == 0 {
        0
    } else {
        slots_total(source, target, source.len()) / source.len()
    }
}

/// The field score is zero without comparable fields, the one field's
/// similarity when only one is comparable, and the mean of the two when
/// both are: a field absent on either side costs nothing.
pub proof fn lemma_score_fields_mean(source: FieldRecord, target: FieldRecord)
    ensures
        ({
            let t = field_similarity(source.title_view(), target.title_view());
            let a = field_similarity(source.artist_view(), target.artist_view());
            &&& (t is None && a is None) ==> score_fields_spec(source, target) == 0
            &&& (t is Some && a is None) ==> score_fields_spec(source, target) == t->0
            &&& (t is None && a is Some) ==> score_fields_spec(source, target) == a->0
            &&& (t is Some && a is Some) ==> score_fields_spec(source, target) == (t->0 + a->0)
                / 2
        }),
{
}

/// Track listings whose lengths differ by more than a fifth of the source
/// length score zero.
pub proof fn lemma_length_gap_scores_zero(source: Seq<FieldRecord>, target: Seq<FieldRecord>)
    requires
        source.len() > 0,
        5 * (if source.len() >= target.len() {
            source.len() - target.len()
        } else {
            target.len() - source.len()
        }) > source.len(),
    ensures
        score_tracks_spec(source, target) == 0,
{
}

/// Scores candidate metadata against local metadata.
pub struct MetadataMatcher {
    /// Score at or above which a candidate counts as a match, in units of
    /// `SCORE_SCALE`.
    pub threshold: u64,
}

pub const DEFAULT_THRESHOLD: u64 = 850_000;

/// Similarity of an optional field pair, when both sides hold it.
fn compare_field(s: &Option<String>, t: &Option<String>) -> (r: Option<u64>)
    ensures
        r matches Some(v) ==> v <= SCORE_SCALE,
        match (r, s, t) {
            (Some(v), Some(x), Some(y)) => v == text_similarity(x@, y@),
            (None, None, _) => true,
            (None, _, None) => true,
            _ => false,
        },
{
    match (s, t) {
        (Some(x), Some(y)) => Some(similarity(x.as_str(), y.as_str())),
        _ => None,
    }
}

impl MetadataMatcher {
    pub fn new(threshold: Option<u64>) -> (r: Self)
        ensures
            r.threshold == match threshold {
                Some(t) => t,
                None => DEFAULT_THRESHOLD,
            },
    {
        MetadataMatcher {
            threshold: match threshold {
                Some(t) => t,
                None => DEFAULT_THRESHOLD,
            },
        }
    }

    /// Case-insensitive similarity of two texts, in units of `SCORE_SCALE`.
    pub fn string_similarity(&self, a: &str, b: &str) -> (r: u64)
        ensures
            r == text_similarity(a@, b@),
            r <= SCORE_SCALE,
    {
        similarity(a, b)
    }

    /// Mean similarity over the fields (title, artist) present on both records.
    pub fn score_match(&self, source: &FieldRecord, target: &FieldRecord) -> (r: u64)
        ensures
            r == score_fields_spec(*source, *target),
            r <= SCORE_SCALE,
    {
        let mut total: u64 = 0;
        let mut fields: u64 = 0;
        match compare_field(&source.title, &target.title) {
            Some(v) => {
                total = total + v;
                fields = fields + 1;
            },
            None => {},
        }
        match compare_field(&source.artist, &target.artist) {
            Some(v) => {
                total = total + v;
                fields = fields + 1;
            },
            None => {},
        }
        if fields == 0 {
            0
        } else {
            assert(total <= fields * SCORE_SCALE);
            assert(total / fields <= SCORE_SCALE) by (nonlinear_arith)
                requires
                    total <= fields * SCORE_SCALE,
                    fields > 0,
            ;
            total / fields
        }
    }

    /// Positional comparison of two track listings by title.
    pub fn compare_track_lists(&self, source: &Vec<FieldRecord>, target: &Vec<FieldRecord>) -> (r:
        u64)
        ensures
            r == score_tracks_spec(source@, target@),
            r <= SCORE_SCALE,
    {
        let s_len = source.len();
        let t_len = target.len();
        if s_len == 0 {
            return 0;
        }
        let gap: usize = if s_len >= t_len { s_len - t_len } else { t_len - s_len };
        if (gap as u128) * 5 > (s_len as u128) {
            return 0;
        }
        let mut total: u128 = 0;
        let mut i: usize = 0;
        while i < s_len
            invariant
                i <= s_len,
                s_len == source@.len(),
                t_len == target@.len(),
                total == slots_total(source@, target@, i as nat),
                total <= (i as int) * SCORE_SCALE,
            decreases s_len - i,
        {
            let mut slot: u64 = 0;
            if i < t_len {
                match compare_field(&source[i].title, &target[i].title) {
                    Some(v) => {
                        slot = v;
                    },
                    None => {},
                }
            }
            assert(slot == slot_score(source@, target@, i as int));
            total = total + (slot as u128);
            i = i + 1;
        }
        assert(total / (s_len as u128) <= SCORE_SCALE) by (nonlinear_arith)
            requires
                total <= (s_len as int) * SCORE_SCALE,
                s_len > 0,
        ;
        (total / (s_len as u128)) as u64
    }
}

} // verus!
