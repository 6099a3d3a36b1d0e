//! The peripheral locator: the advertised-name match and the per-candidate
//! decision of the search loop.

use vstd::prelude::*;

use crate::discovery::FetchOutcome;
use crate::errors::Error;

verus! {

/// `needle` occurs in `haystack` starting at position `i`.
pub open spec fn is_match_at(haystack: Seq<u8>, needle: Seq<u8>, i: int) -> bool {
    &&& 0 <= i
    &&& i + needle.len() <= haystack.len()
    &&& haystack.subrange(i, i + needle.len()) == needle
}

/// `needle` occurs somewhere in `haystack` (case-sensitive, contiguous).
pub open spec fn contains_seq(haystack: Seq<u8>, needle: Seq<u8>) -> bool {
    exists|i: int| is_match_at(haystack, needle, i)
}

/// Substring containment over byte strings: the name-match predicate of the
/// search. An advertised name matches a requested name exactly when the
/// requested bytes occur contiguously inside the advertised bytes; an empty
/// request matches every name.
pub fn contains_bytes(haystack: &[u8], needle: &[u8]) -> (r: bool)
    ensures
        r == contains_seq(haystack@, needle@),
{
    let hn: usize = haystack.len();
    let nn: usize = needle.len();
    if nn > hn {
        proof {
            assert(forall|i: int| !is_match_at(haystack@, needle@, i));
        }
        return false;
    }
    if nn == 0 {
        proof {
            assert(haystack@.subrange(0, 0) =~= needle@);
            assert(is_match_at(haystack@, needle@, 0));
        }
        return true;
    }
    let mut i: usize = 0;
    while i <= hn - nn
        invariant
            1 <= nn <= hn,
            hn == haystack@.len(),
            nn == needle@.len(),
            i <= hn - nn + 1,
            forall|k: int| 0 <= k < i ==> !is_match_at(haystack@, needle@, k),
        decreases hn - nn - i + 1,
    {
        let mut j: usize = 0;
        let mut mismatch = false;
        while j < nn
            invariant
                nn <= hn,
                hn == haystack@.len(),
                nn == needle@.len(),
                i <= hn - nn,
                j <= nn,
                !mismatch ==> forall|t: int| 0 <= t < j ==> haystack@[i + t] == needle@[t],
                mismatch ==> !is_match_at(haystack@, needle@, i as int),
            decreases nn - j,
        {
            let h = *vstd::slice::slice_index_get(haystack, i + j);
            let n = *vstd::slice::slice_index_get(needle, j);
            if h != n {
                proof {
                    assert(!is_match_at(haystack@, needle@, i as int)) by {
                        if is_match_at(haystack@, needle@, i as int) {
                            assert(haystack@.subrange(i as int, i + nn as int)[j as int]
                                == needle@[j as int]);
                        }
                    }
                }
                mismatch = true;
                j = nn;
            } else {
                j = j + 1;
            }
        }
        if !mismatch {
            proof {
                assert(haystack@.subrange(i as int, i + nn as int) =~= needle@);
                assert(is_match_at(haystack@, needle@, i as int));
            }
            return true;
        }
        i = i + 1;
    }
    proof {
        assert forall|k: int| !is_match_at(haystack@, needle@, k) by {
            if 0 <= k && k + needle@.len() <= haystack@.len() {
                assert(k < i);
            }
        }
    }
    false
}

/// What the search loop does with one candidate, as the contract of
/// [`locate_step`] states it.
#[derive(Clone, Copy, Debug, PartialEq, Eq, Structural)]
pub enum LocateDecision {
    /// The candidate's advertised name contains the requested name: stop
    /// consuming the stream, connect, and resolve services.
    Match,
    /// The candidate's name was resolved and does not match: keep consuming.
    Continue,
    /// The search is aborted with this error. Unlike the discovery
    /// projections, the locator treats a failed or empty property fetch on
    /// any candidate as fatal to the whole search.
    Fail(Error),
}

/// The decision the search takes for one candidate, given the outcome of its
/// property fetch and the requested name.
pub open spec fn spec_decide(outcome: FetchOutcome, target: Seq<u8>) -> LocateDecision {
    match outcome {
        FetchOutcome::Failed => LocateDecision::Fail(Error::Platform),
        FetchOutcome::Missing => LocateDecision::Fail(Error::PeripheralPropertiesNotFound),
        FetchOutcome::Fetched(props) => match props.local_name {
            Option::None => LocateDecision::Fail(Error::LocalNameNotFound),
            Option::Some(name) => if contains_seq(name@, target) {
                LocateDecision::Match
            } else {
                LocateDecision::Continue
            },
        },
    }
}

/// One turn of the search loop of `find_peripheral`: a failed property fetch
/// aborts with the platform's error, absent properties abort with
/// `PeripheralPropertiesNotFound`, an absent local name aborts with
/// `LocalNameNotFound`, a name containing `target` is a match, and any other
/// resolved name lets the search continue with the next candidate.
pub fn locate_step(outcome: &FetchOutcome, target: &[u8]) -> (r: LocateDecision)
    ensures
        r == spec_decide(*outcome, target@),
{
    match outcome {
        FetchOutcome::Failed => LocateDecision::Fail(Error::Platform),
        FetchOutcome::Missing => LocateDecision::Fail(Error::PeripheralPropertiesNotFound),
        FetchOutcome::Fetched(props) => match &props.local_name {
            Option::None => LocateDecision::Fail(Error::LocalNameNotFound),
            Option::Some(name) => {
                if contains_bytes(name.as_slice(), target) {
                    LocateDecision::Match
                } else {
                    LocateDecision::Continue
                }
            },
        },
    }
}

/// How a search over a finite stretch of candidates ends.
#[derive(Clone, Copy, Debug, PartialEq, Eq, Structural)]
pub enum LocateResult {
    /// The candidate at this position is the first match.
    Found(usize),
    /// Every candidate let the search continue: over the live, unbounded
    /// stream the search would still be waiting for the next candidate.
    Pending,
    /// The candidate at this position aborted the search with this error.
    Failed(usize, Error),
}

/// The search loop of `find_peripheral` over a finite, simulated stretch of
/// the candidate stream: candidates are taken in order, and the first one
/// whose decision is not `Continue` settles the result.
///
/// The `Pending` arm of the contract is the termination policy of the live
/// search: a stretch in which no candidate matches (and none aborts) resolves
/// nothing, so the unbounded search never returns on its own and must be
/// cancelled externally.
pub fn locate_in(candidates: &Vec<FetchOutcome>, target: &[u8]) -> (r: LocateResult)
    ensures
        match r {
            LocateResult::Found(i) => {
                &&& i < candidates@.len()
                &&& spec_decide(candidates@[i as int], target@) is Match
                &&& forall|j: int|
                    0 <= j < i ==> spec_decide(candidates@[j], target@) is Continue
            },
            LocateResult::Failed(i, e) => {
                &&& i < candidates@.len()
                &&& spec_decide(candidates@[i as int], target@) == LocateDecision::Fail(e)
                &&& forall|j: int|
                    0 <= j < i ==> spec_decide(candidates@[j], target@) is Continue
            },
            LocateResult::Pending => forall|i: int|
                0 <= i < candidates@.len() ==> spec_decide(candidates@[i], target@) is Continue,
        },
{
    let mut i: usize = 0;
    while i < candidates.len()
        invariant
            i <= candidates@.len(),
            forall|j: int| 0 <= j < i ==> spec_decide(candidates@[j], target@) is Continue,
        decreases candidates@.len() - i,
    {
        match locate_step(&candidates[i], target) {
            LocateDecision::Match => {
                return LocateResult::Found(i);
            },
            LocateDecision::Fail(e) => {
                return LocateResult::Failed(i, e);
            },
            LocateDecision::Continue => {},
        }
        i = i + 1;
    }
    LocateResult::Pending
}

} // verus!
