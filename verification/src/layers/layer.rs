//! What every layer keeps of the accessor it wraps.

use vstd::prelude::*;

use crate::accessor::AccessorMetadata;
use crate::accessor::AccessorMetadataView;

verus! {

/// A layer wraps an inner accessor and yields an outer one.
///
/// The outer accessor describes itself as the inner one does, except that a
/// layer may take capabilities away. It never adds one.
pub trait Layer {
    /// What the outer accessor says of itself where the inner one says
    /// `inner`.
    spec fn wrapped(&self, inner: AccessorMetadataView) -> AccessorMetadataView;

    /// What the outer accessor says of itself, given what the inner one says.
    fn metadata(&self, inner: AccessorMetadata) -> (outer: AccessorMetadata)
        ensures
            outer@ == self.wrapped(inner@),
            outer@.capabilities.subset_of(inner@.capabilities),
            outer@.scheme == inner@.scheme,
            outer@.root == inner@.root,
            outer@.name == inner@.name,
    ;
}

/// What the outermost accessor says of itself when `layers` wrap an
/// accessor that says `base`: the first layer wraps the accessor, each
/// further one wraps what the layers before it made, and the last is
/// outermost.
pub open spec fn layered<L: Layer>(layers: Seq<L>, base: AccessorMetadataView)
    -> AccessorMetadataView
    decreases layers.len(),
{
    if layers.len() == 0 {
        base
    } else {
        layers.last().wrapped(layered(layers.drop_last(), base))
    }
}

/// What the outermost accessor says of itself when `layers` are applied to
/// an accessor in order: the first wraps the accessor, the last is outermost.
/// However many layers there are, no capability is gained.
pub fn layered_metadata<L: Layer>(layers: &Vec<L>, base: AccessorMetadata) -> (outer:
    AccessorMetadata)
    ensures
        outer@ == layered(layers@, base@),
        outer@.capabilities.subset_of(base@.capabilities),
        outer@.scheme == base@.scheme,
        outer@.root == base@.root,
        outer@.name == base@.name,
{
    let ghost start = base@;
    let mut current = base;
    let mut i: usize = 0;
    assert(layers@.take(0).len() == 0);
    while i < layers.len()
        invariant
            i <= layers.len(),
            current@ == layered(layers@.take(i as int), start),
            current@.capabilities.subset_of(start.capabilities),
            current@.scheme == start.scheme,
            current@.root == start.root,
            current@.name == start.name,
        decreases layers.len() - i,
    {
        proof {
            let next = layers@.take(i + 1);
            assert(next.drop_last() =~= layers@.take(i as int));
            assert(next.last() == layers@[i as int]);
        }
        current = layers[i].metadata(current);
        i = i + 1;
    }
    assert(layers@.take(layers.len() as int) =~= layers@);
    current
}

} // verus!
