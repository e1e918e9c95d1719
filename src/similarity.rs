//! Normalized, case-insensitive string similarity built on edit distance.
use vstd::prelude::*;

verus! {

/// Scores are fixed-point numbers: `SCORE_SCALE` stands for 1.0.
pub const SCORE_SCALE: u64 = 1_000_000;

pub open spec fn min3(x: nat, y: nat, z: nat) -> nat {
    if x <= y && x <= z {
        x
    } else if y <= z {
        y
    } else {
        z
    }
}

pub open spec fn max_len(a: Seq<char>, b: Seq<char>) -> nat {
    if a.len() >= b.len() {
        a.len()
    } else {
        b.len()
    }
}

/// Levenshtein distance: the fewest single-character insertions, deletions
/// and substitutions that turn `a` into `b`.
pub open spec fn edit_distance_spec(a: Seq<char>, b: Seq<char>) -> nat
    decreases a.len() + b.len(),
{
    if a.len() == 0 {
        b.len()
    } else if b.len() == 0 {
        a.len()
    } else {
        let cost: nat = if a.last() == b.last() { 0 } else { 1 };
        min3(
            edit_distance_spec(a.drop_last(), b) + 1,
            edit_distance_spec(a, b.drop_last()) + 1,
            edit_distance_spec(a.drop_last(), b.drop_last()) + cost,
        )
    }
}

/// Similarity of two already case-folded texts:
/// `SCORE_SCALE * (1 - distance / longer length)`, rounded down; two empty
/// texts are identical.
pub open spec fn folded_similarity_spec(a: Seq<char>, b: Seq<char>) -> nat {
    let m = max_len(a, b);
    if m == 0 {
        SCORE_SCALE as nat
    } else {
        ((SCORE_SCALE * (m - edit_distance_spec(a, b))) / (m as int)) as nat
    }
}

/// The lowercase form of a text, as `str::to_lowercase` computes it.
pub uninterp spec fn lower_of(s: Seq<char>) -> Seq<char>;

/// Case-insensitive similarity of two texts.
pub open spec fn text_similarity(a: Seq<char>, b: Seq<char>) -> nat {
    folded_similarity_spec(lower_of(a), lower_of(b))
}

/// Relies on `str::to_lowercase`: the lowercase form depends on the
/// characters of the text alone.
#[verifier::external_body]
pub(crate) fn lowercase(s: &str) -> (r: String)
    ensures
        r@ == lower_of(s@),
{
    s.to_lowercase()
}

pub proof fn lemma_edit_distance_bound(a: Seq<char>, b: Seq<char>)
    ensures
        edit_distance_spec(a, b) <= max_len(a, b),
    decreases a.len() + b.len(),
{
    if a.len() > 0 && b.len() > 0 {
        lemma_edit_distance_bound(a.drop_last(), b.drop_last());
    }
}

pub proof fn lemma_edit_distance_self(a: Seq<char>)
    ensures
        edit_distance_spec(a, a) == 0,
    decreases a.len(),
{
    if a.len() > 0 {
        lemma_edit_distance_self(a.drop_last());
    }
}

pub proof fn lemma_edit_distance_symmetric(a: Seq<char>, b: Seq<char>)
    ensures
        edit_distance_spec(a, b) == edit_distance_spec(b, a),
    decreases a.len() + b.len(),
{
    if a.len() > 0 && b.len() > 0 {
        lemma_edit_distance_symmetric(a.drop_last(), b);
        lemma_edit_distance_symmetric(a, b.drop_last());
        lemma_edit_distance_symmetric(a.drop_last(), b.drop_last());
    }
}

pub proof fn lemma_folded_similarity_bound(a: Seq<char>, b: Seq<char>)
    ensures
        folded_similarity_spec(a, b) <= SCORE_SCALE,
{
    let m = max_len(a, b);
    if m > 0 {
        lemma_edit_distance_bound(a, b);
        let k = m - edit_distance_spec(a, b);
        assert(0 <= k <= m);
        assert((SCORE_SCALE * k) / (m as int) <= SCORE_SCALE) by (nonlinear_arith)
            requires
                0 <= k <= m,
                m > 0,
        ;
    }
}

/// Every text is fully similar to itself.
pub proof fn lemma_similarity_reflexive(a: Seq<char>)
    ensures
        text_similarity(a, a) == SCORE_SCALE,
{
    let l = lower_of(a);
    lemma_edit_distance_self(l);
    let m = max_len(l, l);
    if m > 0 {
        assert((SCORE_SCALE * (m - 0)) / (m as int) == SCORE_SCALE) by (nonlinear_arith)
            requires
                m > 0,
        ;
    }
}

/// Similarity does not depend on the order of its arguments.
pub proof fn lemma_similarity_symmetric(a: Seq<char>, b: Seq<char>)
    ensures
        text_similarity(a, b) == text_similarity(b, a),
{
    lemma_edit_distance_symmetric(lower_of(a), lower_of(b));
}

/// Similarity ignores letter case: texts with the same lowercase form score
/// the same against any other text, and fully against each other.
pub proof fn lemma_similarity_case_insensitive(a: Seq<char>, a2: Seq<char>, b: Seq<char>)
    requires
        lower_of(a) == lower_of(a2),
    ensures
        text_similarity(a, b) == text_similarity(a2, b),
        text_similarity(a, a2) == SCORE_SCALE,
{
    lemma_similarity_reflexive(a);
}

/// One step of the distance table: the distance of two non-empty prefixes
/// from the three shorter ones.
proof fn lemma_edit_distance_step(a: Seq<char>, b: Seq<char>, i: int, k: int)
    requires
        0 <= i < a.len(),
        0 <= k < b.len(),
    ensures
        edit_distance_spec(a.take(i + 1), b.take(k + 1)) == min3(
            edit_distance_spec(a.take(i), b.take(k + 1)) + 1,
            edit_distance_spec(a.take(i + 1), b.take(k)) + 1,
            edit_distance_spec(a.take(i), b.take(k)) + (if a[i] == b[k] { 0nat } else { 1nat }),
        ),
{
    assert(a.take(i + 1).drop_last() =~= a.take(i));
    assert(b.take(k + 1).drop_last() =~= b.take(k));
    assert(a.take(i + 1).last() == a[i]);
    assert(b.take(k + 1).last() == b[k]);
}

/// The characters of a text, in order.
pub(crate) fn chars_of(s: &str) -> (r: Vec<char>)
    ensures
        r@ == s@,
{
    let n = s.unicode_len();
    let mut r: Vec<char> = Vec::new();
    let mut i: usize = 0;
    while i < n
        invariant
            n == s@.len(),
            i <= n,
            r@ == s@.take(i as int),
        decreases n - i,
    {
        r.push(s.get_char(i));
        i = i + 1;
        assert(r@ =~= s@.take(i as int));
    }
    assert(r@ =~= s@);
    r
}

/// Levenshtein distance of two character sequences.
pub fn edit_distance(a: &Vec<char>, b: &Vec<char>) -> (r: usize)
    ensures
        r == edit_distance_spec(a@, b@),
{
    let alen = a.len();
    let blen = b.len();
    // row[k] holds the distance between the first i characters of a and
    // the first k + 1 characters of b.
    let mut row: Vec<usize> = Vec::new();
    let mut k: usize = 0;
    while k < blen
        invariant
            k <= blen,
            blen == b@.len(),
            row@.len() == k,
            forall|q: int|
                0 <= q < k ==> row@[q] == edit_distance_spec(a@.take(0), b@.take(q + 1)),
        decreases blen - k,
    {
        proof {
            assert(a@.take(0).len() == 0);
        }
        row.push(k + 1);
        k = k + 1;
    }
    let mut i: usize = 0;
    while i < alen
        invariant
            i <= alen,
            alen == a@.len(),
            blen == b@.len(),
            row@.len() == blen,
            forall|q: int|
                0 <= q < blen ==> row@[q] == edit_distance_spec(a@.take(i as int), b@.take(q + 1)),
        decreases alen - i,
    {
        let ai = a[i];
        proof {
            assert(b@.take(0).len() == 0);
        }
        let mut left: usize = i + 1;
        let mut diag: usize = i;
        let mut k: usize = 0;
        while k < blen
            invariant
                i < alen,
                k <= blen,
                alen == a@.len(),
                blen == b@.len(),
                ai == a@[i as int],
                row@.len() == blen,
                forall|q: int|
                    0 <= q < k ==> row@[q] == edit_distance_spec(
                        a@.take(i + 1),
                        b@.take(q + 1),
                    ),
                forall|q: int|
                    k <= q < blen ==> row@[q] == edit_distance_spec(a@.take(i as int), b@.take(q + 1)),
                left == edit_distance_spec(a@.take(i + 1), b@.take(k as int)),
                diag == edit_distance_spec(a@.take(i as int), b@.take(k as int)),
            decreases blen - k,
        {
            let up = row[k];
            proof {
                lemma_edit_distance_bound(a@.take(i as int), b@.take(k as int));
                lemma_edit_distance_step(a@, b@, i as int, k as int);
            }
            let cost: usize = if ai == b[k] { 0 } else { 1 };
            let via_diag = diag + cost;
            let shorter = if up <= left { up } else { left };
            let val = if shorter < via_diag { shorter + 1 } else { via_diag };
            row.set(k, val);
            diag = up;
            left = val;
            k = k + 1;
        }
        i = i + 1;
    }
    if blen == 0 {
        proof {
            assert(b@.len() == 0);
        }
        alen
    } else {
        proof {
            assert(a@.take(alen as int) =~= a@);
            assert(b@.take(blen as int) =~= b@);
        }
        row[blen - 1]
    }
}

/// Similarity of two texts that are already case-folded.
pub fn folded_similarity(a: &str, b: &str) -> (r: u64)
    ensures
        r == folded_similarity_spec(a@, b@),
{
    let av = chars_of(a);
    let bv = chars_of(b);
    let d = edit_distance(&av, &bv);
    let m = if av.len() >= bv.len() { av.len() } else { bv.len() };
    if m == 0 {
        return SCORE_SCALE;
    }
    proof {
        lemma_edit_distance_bound(a@, b@);
        lemma_folded_similarity_bound(a@, b@);
    }
    let k = m - d;
    assert(k <= m);
    let num: u128 = (SCORE_SCALE as u128) * (k as u128);
    let q = num / (m as u128);
    q as u64
}

/// Case-insensitive similarity of two texts.
pub fn similarity(a: &str, b: &str) -> (r: u64)
    ensures
        r == text_similarity(a@, b@),
        r <= SCORE_SCALE,
{
    let la = lowercase(a);
    let lb = lowercase(b);
    proof {
        lemma_folded_similarity_bound(la@, lb@);
    }
    folded_similarity(la.as_str(), lb.as_str())
}

} // verus!
