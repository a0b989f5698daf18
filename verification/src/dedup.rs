use rustc_hash::FxHashSet;
use vstd::prelude::*;

verus! {

/// The hasher factory of `rustc_hash`, which parameterises its hash sets.
/// Nothing is claimed about it; it is only named so that the set type can
/// appear in fields and signatures.
#[verifier::external_type_specification]
#[verifier::external_body]
pub struct ExFxBuildHasher(rustc_hash::FxBuildHasher);

/// The byte contents of the frames that a set holds.
pub uninterp spec fn seen_frames(set: FxHashSet<Vec<u8>>) -> Set<Seq<u8>>;

/// Calls `FxHashSet::default`, which builds a set that holds nothing.
#[verifier::external_body]
pub(crate) fn seen_new() -> (set: FxHashSet<Vec<u8>>)
    ensures
        seen_frames(set) == Set::<Seq<u8>>::empty(),
{
    FxHashSet::default()
}

/// Calls `HashSet::contains` on an `FxHashSet`. Byte vectors hash and compare
/// by content, so the answer is whether a frame with the same bytes is held.
#[verifier::external_body]
pub(crate) fn seen_contains(set: &FxHashSet<Vec<u8>>, frame: &Vec<u8>) -> (found: bool)
    ensures
        found == seen_frames(*set).contains(frame@),
{
    set.contains(frame)
}

/// Calls `HashSet::insert` on an `FxHashSet`. Afterwards the set holds the
/// frame's bytes next to everything it held before; the result tells whether
/// they were absent until now.
#[verifier::external_body]
pub(crate) fn seen_insert(set: &mut FxHashSet<Vec<u8>>, frame: Vec<u8>) -> (fresh: bool)
    ensures
        seen_frames(*final(set)) == seen_frames(*old(set)).insert(frame@),
        fresh == !seen_frames(*old(set)).contains(frame@),
{
    set.insert(frame)
}

} // verus!
