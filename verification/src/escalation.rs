//! Decompression with an unknown output size: the output buffer is guessed as
//! a multiple of the input length, and the multiple grows until the codec
//! accepts it or the range is used up.

use vstd::prelude::*;
use zstd::bulk::Decompressor;
use crate::codec::{decode_frame, loaded_dictionary, zstd_outcome};

verus! {

/// The range of multipliers to try: `first`, `first + 1`, .., `limit - 1`.
#[derive(Clone, Copy, Debug)]
pub struct EscalationPolicy {
    pub first: usize,
    pub limit: usize,
}

/// Why no multiplier of the range gave a result.
#[derive(Debug)]
pub struct Exhausted {
    /// The codec's error at the last multiplier tried; empty where the range
    /// held no multiplier.
    pub last_error: String,
}

/// What to do after one attempt.
#[derive(Debug)]
pub enum Step {
    /// The attempt succeeded: this is the payload.
    Done(Vec<u8>),
    /// The attempt failed; with the multiplier to try next, and the error.
    Retry(usize, String),
    /// The attempt failed and was the last of the range.
    GiveUp(Exhausted),
}

/// The outcome of the attempt with multiplier `k`.
pub open spec fn attempt(dictionary: Seq<u8>, data: Seq<u8>, k: int) -> Result<Seq<u8>, Seq<char>> {
    zstd_outcome(dictionary, data, (data.len() * k) as usize)
}

/// The least multiplier in `lo..hi` whose attempt succeeds.
pub open spec fn first_success(dictionary: Seq<u8>, data: Seq<u8>, lo: int, hi: int) -> Option<int>
    decreases hi - lo,
{
    if lo >= hi {
        None
    } else if attempt(dictionary, data, lo) is Ok {
        Some(lo)
    } else {
        first_success(dictionary, data, lo + 1, hi)
    }
}

/// What the escalation returns: the payload of the first attempt that
/// succeeds, or else the error of the last attempt.
pub open spec fn escalated(dictionary: Seq<u8>, data: Seq<u8>, lo: int, hi: int) -> Result<Seq<u8>, Seq<char>> {
    match first_success(dictionary, data, lo, hi) {
        Some(k) => attempt(dictionary, data, k),
        None => if lo < hi {
            attempt(dictionary, data, hi - 1)
        } else {
            Err(Seq::<char>::empty())
        },
    }
}

/// No attempt in `lo..mid` succeeds exactly if the search from `lo` goes on
/// from `mid`.
pub proof fn lemma_first_success_skip(dictionary: Seq<u8>, data: Seq<u8>, lo: int, mid: int, hi: int)
    requires
        lo <= mid <= hi,
        forall|k: int| lo <= k < mid ==> attempt(dictionary, data, k) is Err,
    ensures
        first_success(dictionary, data, lo, hi) == first_success(dictionary, data, mid, hi),
    decreases mid - lo,
{
    if lo < mid {
        lemma_first_success_skip(dictionary, data, lo + 1, mid, hi);
    }
}

/// A multiplier that the search returns lies in the range, its attempt
/// succeeds, and no earlier one does.
pub proof fn lemma_first_success_is_least(dictionary: Seq<u8>, data: Seq<u8>, lo: int, hi: int)
    ensures
        match first_success(dictionary, data, lo, hi) {
            Some(k) => lo <= k < hi && attempt(dictionary, data, k) is Ok && forall|j: int|
                lo <= j < k ==> attempt(dictionary, data, j) is Err,
            None => forall|j: int| lo <= j < hi ==> attempt(dictionary, data, j) is Err,
        },
    decreases hi - lo,
{
    if lo < hi && !(attempt(dictionary, data, lo) is Ok) {
        lemma_first_success_is_least(dictionary, data, lo + 1, hi);
    }
}

/// The escalation ends within the range: what it returns is the outcome of
/// one of the attempts `lo..hi`, and it succeeds exactly if one of them does.
pub proof fn lemma_escalated_is_an_attempt(dictionary: Seq<u8>, data: Seq<u8>, lo: int, hi: int)
    requires
        lo < hi,
    ensures
        exists|k: int| lo <= k < hi && escalated(dictionary, data, lo, hi) == #[trigger] attempt(dictionary, data, k),
        escalated(dictionary, data, lo, hi) is Ok <==> exists|k: int| lo <= k < hi && #[trigger] attempt(dictionary, data, k) is Ok,
{
    lemma_first_success_is_least(dictionary, data, lo, hi);
    match first_success(dictionary, data, lo, hi) {
        Some(k) => {
            assert(lo <= k < hi && escalated(dictionary, data, lo, hi) == attempt(dictionary, data, k));
        },
        None => {
            assert(lo <= hi - 1 < hi && escalated(dictionary, data, lo, hi) == attempt(dictionary, data, hi - 1));
        },
    }
}

/// How many attempts the escalation over `lo..hi` makes: up to and including
/// the first that succeeds, or all of the range.
pub open spec fn attempts_made(dictionary: Seq<u8>, data: Seq<u8>, lo: int, hi: int) -> int {
    match first_success(dictionary, data, lo, hi) {
        Some(k) => k - lo + 1,
        None => if lo < hi {
            hi - lo
        } else {
            0
        },
    }
}

/// The escalation makes at most as many attempts as the range has
/// multipliers, 28 for the multipliers 2 to 29, and at least one where the
/// range is not empty.
pub proof fn lemma_attempts_are_bounded(dictionary: Seq<u8>, data: Seq<u8>, lo: int, hi: int)
    requires
        0 <= lo,
    ensures
        0 <= attempts_made(dictionary, data, lo, hi),
        lo < hi ==> 1 <= attempts_made(dictionary, data, lo, hi) <= hi - lo,
        lo == 2 && hi == 30 ==> attempts_made(dictionary, data, lo, hi) <= 28,
{
    lemma_first_success_is_least(dictionary, data, lo, hi);
}

/// The buffer of each attempt is larger than that of the attempt before it,
/// unless the input is empty.
pub proof fn lemma_buffers_grow(len: nat, k: int)
    requires
        len > 0,
    ensures
        len * k < len * (k + 1),
{
    assert(len * (k + 1) == len * k + len) by (nonlinear_arith);
}

impl EscalationPolicy {
    /// The multipliers 2 to 29.
    pub fn standard() -> (p: EscalationPolicy)
        ensures
            p.first == 2,
            p.limit == 30,
    {
        EscalationPolicy { first: 2, limit: 30 }
    }

    /// Every buffer that the policy asks for on `len` input bytes can be
    /// allocated: the largest, `limit - 1` times `len`, is at most
    /// `isize::MAX`, which is half of `usize::MAX`.
    pub open spec fn fits(self, len: int) -> bool {
        self.first < self.limit ==> len * (self.limit - 1) <= usize::MAX / 2
    }

    /// Whether `fits` holds for an input of `len` bytes.
    pub fn admits(&self, len: usize) -> (r: bool)
        ensures
            r == self.fits(len as int),
    {
        if self.first >= self.limit {
            return true;
        }
        match len.checked_mul(self.limit - 1) {
            Some(largest) => largest <= usize::MAX / 2,
            None => false,
        }
    }
}

/// Decides what follows the attempt with `multiplier`, given its outcome: a
/// success ends the escalation with its payload, a failure moves on to the
/// next multiplier, and a failure at the last multiplier of the range ends
/// the escalation with that error.
pub fn after_attempt(policy: EscalationPolicy, multiplier: usize, outcome: Result<Vec<u8>, String>) -> (step: Step)
    requires
        multiplier < policy.limit,
    ensures
        match outcome {
            Ok(bytes) => step matches Step::Done(payload) && payload@ == bytes@,
            Err(reason) => if multiplier + 1 < policy.limit {
                step matches Step::Retry(next, error) && next == multiplier + 1 && error@ == reason@
            } else {
                step matches Step::GiveUp(failure) && failure.last_error@ == reason@
            },
        },
{
    match outcome {
        Ok(bytes) => Step::Done(bytes),
        Err(reason) => {
            if multiplier + 1 < policy.limit {
                Step::Retry(multiplier + 1, reason)
            } else {
                Step::GiveUp(Exhausted { last_error: reason })
            }
        },
    }
}

/// Decompresses `data` with `engine`, trying each multiplier of `policy` in
/// turn as the size of the output buffer. The first attempt that succeeds
/// gives the result; where every attempt of the range fails, the error of
/// the last one is returned. The engine keeps its dictionary.
pub fn decompress_escalating(engine: &mut Decompressor<'static>, data: &[u8], policy: EscalationPolicy) -> (r: Result<Vec<u8>, Exhausted>)
    requires
        policy.fits(data@.len() as int),
    ensures
        loaded_dictionary(final(engine)) == loaded_dictionary(old(engine)),
        match escalated(
            loaded_dictionary(old(engine)),
            data@,
            policy.first as int,
            policy.limit as int,
        ) {
            Ok(bytes) => r is Ok && r->Ok_0@ == bytes,
            Err(reason) => r is Err && r->Err_0.last_error@ == reason,
        },
{
    let ghost dictionary = loaded_dictionary(engine);
    let ghost lo = policy.first as int;
    let ghost hi = policy.limit as int;
    let mut k: usize = policy.first;
    while k < policy.limit
        invariant
            policy.fits(data@.len() as int),
            lo == policy.first,
            hi == policy.limit,
            lo <= k,
            lo < hi ==> k < hi,
            loaded_dictionary(engine) == dictionary,
            dictionary == loaded_dictionary(old(engine)),
            forall|j: int| lo <= j < k ==> attempt(dictionary, data@, j) is Err,
        decreases policy.limit - k,
    {
        proof {
            assert(data@.len() * k <= data@.len() * (policy.limit - 1)) by (nonlinear_arith)
                requires
                    k <= policy.limit - 1,
                    0 <= data@.len(),
            ;
        }
        let capacity: usize = data.len() * k;
        let outcome = decode_frame(engine, data, capacity);
        match after_attempt(policy, k, outcome) {
            Step::Done(bytes) => {
                proof {
                    lemma_first_success_skip(dictionary, data@, lo, k as int, hi);
                    assert(attempt(dictionary, data@, k as int) is Ok);
                    assert(first_success(dictionary, data@, k as int, hi) == Some(k as int));
                }
                return Ok(bytes);
            },
            Step::Retry(multiplier, _) => {
                k = multiplier;
            },
            Step::GiveUp(failure) => {
                proof {
                    assert(attempt(dictionary, data@, k as int) is Err);
                    lemma_first_success_is_least(dictionary, data@, lo, hi);
                }
                return Err(failure);
            },
        }
    }
    Err(Exhausted { last_error: String::new() })
}

} // verus!
