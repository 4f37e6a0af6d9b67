//! A set of addresses, kept by their bytes.

use vstd::prelude::*;

verus! {

/// The hasher of the sets of `ahash`.
#[verifier::external_type_specification]
#[verifier::external_body]
pub struct ExRandomState(ahash::RandomState);

/// `ahash::HashSet::from_iter`: the set holds what `keys` hold.
#[verifier::external_body]
pub(crate) fn key_set_from(keys: Vec<[u8; 32]>) -> (set: ahash::HashSet<[u8; 32]>)
    ensures
        set@ == keys@.to_set(),
{
    ahash::HashSet::from_iter(keys)
}

/// `ahash::HashSet::extend`: what `keys` hold joins the set.
#[verifier::external_body]
pub(crate) fn key_set_extend(set: &mut ahash::HashSet<[u8; 32]>, keys: Vec<[u8; 32]>)
    ensures
        final(set)@ == old(set)@.union(keys@.to_set()),
{
    set.extend(keys)
}

/// `ahash::HashSet::iter`, copied and collected: everything in the set, each once, in an order of
/// which nothing is said.
#[verifier::external_body]
pub(crate) fn key_set_to_vec(set: &ahash::HashSet<[u8; 32]>) -> (keys: Vec<[u8; 32]>)
    ensures
        keys@.no_duplicates(),
        keys@.to_set() == set@,
{
    set.iter().copied().collect()
}

} // verus!
