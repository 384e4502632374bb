//! Similarity of two texts, through the `strsim` crate.
use crate::model::agent::ONE_BITS;
use vstd::prelude::*;

verus! {

/// The Jaro-Winkler similarity of two texts (`strsim::jaro_winkler`), by the
/// bits of the double.
pub uninterp spec fn jaro_winkler_bits(a: Seq<char>, b: Seq<char>) -> u64;

/// `strsim::jaro_winkler`: the similarity of two texts, a double between 0.0 and
/// 1.0, by its bits. Doubles that are not negative are ordered as their bits
/// are.
#[verifier::external_body]
pub(crate) fn jaro_winkler(a: &str, b: &str) -> (r: u64)
    ensures
        r == jaro_winkler_bits(a@, b@),
        r <= ONE_BITS,
{
    strsim::jaro_winkler(a, b).to_bits()
}

} // verus!
