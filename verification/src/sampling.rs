//! Masks that pick a random sample of rows.
//!
//! A mask holds one flag for each row of a dataset; the rows whose flag is set
//! make up the sample. The order of the flags is left to chance, their number is
//! not.

use rand::seq::SliceRandom;
use vstd::prelude::*;
use vstd::seq_lib::{to_multiset_build, to_multiset_len};

use crate::window::min_int;

verus! {

/// How many flags of the mask are set.
pub open spec fn picked(mask: Seq<bool>) -> nat {
    mask.to_multiset().count(true)
}

/// The mask has one flag for each of `rows` rows and picks `sample` of them, or
/// all of them where there are fewer.
pub open spec fn is_sample_mask(mask: Seq<bool>, rows: int, sample: int) -> bool {
    &&& mask.len() == rows
    &&& picked(mask) == min_int(sample, rows)
}

/// The mask of `rows` flags whose first `sample` flags are set.
pub open spec fn leading_mask(rows: int, sample: int) -> Seq<bool> {
    Seq::new(rows as nat, |i: int| i < sample)
}

/// A leading mask picks as many rows as it was asked for, or all of them.
pub proof fn lemma_leading_mask_picks(rows: int, sample: int)
    requires
        0 <= rows,
        0 <= sample,
    ensures
        is_sample_mask(leading_mask(rows, sample), rows, sample),
    decreases rows,
{
    if rows == 0 {
        assert(leading_mask(rows, sample) =~= Seq::<bool>::empty());
        assert(Seq::<bool>::empty().to_multiset().count(true) == 0) by {
            to_multiset_len(Seq::<bool>::empty());
        }
    } else {
        let shorter = leading_mask(rows - 1, sample);
        let last = rows - 1 < sample;
        lemma_leading_mask_picks(rows - 1, sample);
        assert(leading_mask(rows, sample) =~= shorter.push(last));
        to_multiset_build(shorter, last);
    }
}

/// Builds [`leading_mask`].
pub fn build_leading_mask(rows: usize, sample: usize) -> (mask: Vec<bool>)
    ensures
        mask@ == leading_mask(rows as int, sample as int),
{
    let mut mask: Vec<bool> = Vec::new();
    let mut i: usize = 0;
    while i < rows
        invariant
            i <= rows,
            mask@ == leading_mask(i as int, sample as int),
        decreases rows - i,
    {
        mask.push(i < sample);
        i += 1;
    }
    mask
}

/// Calls `rand::seq::SliceRandom::shuffle` with the generator of
/// `rand::thread_rng`. Trusted: the flags are the same as before, in some order.
#[verifier::external_body]
fn shuffle(mask: &mut Vec<bool>)
    ensures
        final(mask)@.to_multiset() == old(mask)@.to_multiset(),
{
    mask.shuffle(&mut rand::thread_rng());
}

/// A mask for `rows` rows that picks `sample` of them at random, or all of them
/// where there are fewer.
pub fn sample_mask(rows: usize, sample: usize) -> (mask: Vec<bool>)
    ensures
        is_sample_mask(mask@, rows as int, sample as int),
{
    let mut mask = build_leading_mask(rows, sample);
    let ghost ordered = mask@;
    shuffle(&mut mask);
    proof {
        lemma_leading_mask_picks(rows as int, sample as int);
        to_multiset_len(ordered);
        to_multiset_len(mask@);
    }
    mask
}

} // verus!
