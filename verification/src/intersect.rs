//! The closest-hit search at the heart of the intersection scan: among the
//! ray-sphere hits met while walking the scene in order, pick the nearest,
//! and break exact ties in favour of the hit met first.
//!
//! A candidate is a pair of the index of the sphere that produced the hit
//! and a key that ranks the hit's distance along the ray. Keys compare as
//! unsigned integers; a caller that ranks hits by a nonnegative distance may
//! use any order-preserving encoding of it, and two hits at the same
//! distance must carry the same key.

use vstd::prelude::*;

verus! {

/// Candidate `w` wins the scan: no candidate has a smaller key, and every
/// earlier candidate has a strictly larger one.
pub open spec fn is_winner(s: Seq<(usize, u64)>, w: int) -> bool {
    &&& 0 <= w < s.len()
    &&& forall|j: int| 0 <= j < s.len() ==> s[w].1 <= (#[trigger] s[j]).1
    &&& forall|j: int| 0 <= j < w ==> s[w].1 < (#[trigger] s[j]).1
}

/// Scans the candidates in order and returns the index of the winning one:
/// the first candidate whose key is minimal, or `None` when there is no
/// candidate at all. A later candidate replaces the current best only when
/// its key is strictly smaller, so the first of two equal hits wins.
pub fn closest_hit(candidates: &Vec<(usize, u64)>) -> (best: Option<usize>)
    ensures
        best is None <==> candidates@.len() == 0,
        best matches Some(w) ==> is_winner(candidates@, w as int),
{
    let mut best: Option<usize> = None;
    let mut i: usize = 0;
    while i < candidates.len()
        invariant
            i <= candidates@.len(),
            best is None <==> i == 0,
            best matches Some(w) ==> ({
                &&& (w as int) < i as int
                &&& forall|j: int| 0 <= j < i ==> candidates@[w as int].1 <= (#[trigger] candidates@[j]).1
                &&& forall|j: int| 0 <= j < w as int ==> candidates@[w as int].1 < (#[trigger] candidates@[j]).1
            }),
        decreases candidates@.len() - i,
    {
        let key = candidates[i].1;
        match best {
            None => {
                best = Some(i);
            },
            Some(w) => {
                if key < candidates[w].1 {
                    best = Some(i);
                }
            },
        }
        i = i + 1;
    }
    best
}

/// A tie between two equally close hits goes to the one met first: when
/// candidates `i` and `j` carry the same key and `i` comes earlier in the
/// scan, the winner is never `j`.
pub proof fn lemma_tie_breaks_first(s: Seq<(usize, u64)>, w: int, i: int, j: int)
    requires
        is_winner(s, w),
        0 <= i < j < s.len(),
        s[i].1 == s[j].1,
    ensures
        w != j,
{
    if w == j {
        assert(s[w].1 < s[i].1);
        assert(s[w].1 <= s[i].1);
    }
}

} // verus!
