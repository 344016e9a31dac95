//! The collision policy of the per-project sample cache.
//!
//! An imported file is copied into the project's sample directory under its
//! own stem and extension; when that name collides, numbered variants of the
//! stem are tried in order, and the import fails once every candidate is
//! taken.  The file system walk and the copy run in the unverified host; the
//! choice among the candidates is made here.

use vstd::prelude::*;

verus! {

/// Number of numbered name candidates tried after the plain stem.
pub const CACHE_NAME_ATTEMPTS: usize = 1000;

/// The first free candidate at or after `i`: index `0` is the plain stem
/// name, index `k + 1` is the stem suffixed with `k`.
pub open spec fn spec_first_free_from(taken: Seq<bool>, i: int) -> Option<int>
    decreases taken.len() - i,
{
    if i < 0 || i >= taken.len() {
        None
    } else if !taken[i] {
        Some(i)
    } else {
        spec_first_free_from(taken, i + 1)
    }
}

/// Chooses the cache file name for an import: entry `0` of `taken` says
/// whether the plain stem name collides, entry `k + 1` whether the stem
/// suffixed with `k` collides.  Returns the first free candidate, or `None`
/// when all of them are taken.
pub fn choose_cache_candidate(taken: &Vec<bool>) -> (r: Option<usize>)
    requires
        taken@.len() == CACHE_NAME_ATTEMPTS + 1,
    ensures
        r matches Some(i) ==> i as int == spec_first_free_from(taken@, 0)->0 && !taken@[i as int]
            && (forall|j: int| 0 <= j < i as int ==> taken@[j]),
        r is None ==> spec_first_free_from(taken@, 0) is None && (forall|j: int|
            0 <= j < taken@.len() ==> taken@[j]),
{
    let mut i: usize = 0;
    while i < taken.len()
        invariant
            i <= taken@.len(),
            taken@.len() == CACHE_NAME_ATTEMPTS + 1,
            forall|j: int| 0 <= j < i as int ==> taken@[j],
        decreases taken@.len() - i,
    {
        if !taken[i] {
            proof {
                lemma_first_free(taken@, i as int);
            }
            return Some(i);
        }
        i = i + 1;
    }
    proof {
        lemma_all_taken(taken@, 0);
    }
    None
}

proof fn lemma_first_free(taken: Seq<bool>, i: int)
    requires
        0 <= i < taken.len(),
        !taken[i],
        forall|j: int| 0 <= j < i ==> taken[j],
    ensures
        spec_first_free_from(taken, 0) == Some(i),
{
    lemma_first_free_from(taken, 0, i);
}

proof fn lemma_first_free_from(taken: Seq<bool>, k: int, i: int)
    requires
        0 <= k <= i < taken.len(),
        !taken[i],
        forall|j: int| k <= j < i ==> taken[j],
    ensures
        spec_first_free_from(taken, k) == Some(i),
    decreases i - k,
{
    if k < i {
        lemma_first_free_from(taken, k + 1, i);
    }
}

proof fn lemma_all_taken(taken: Seq<bool>, k: int)
    requires
        0 <= k,
        forall|j: int| 0 <= j < taken.len() ==> taken[j],
    ensures
        spec_first_free_from(taken, k) is None,
    decreases taken.len() - k,
{
    if k < taken.len() {
        lemma_all_taken(taken, k + 1);
    }
}

} // verus!
