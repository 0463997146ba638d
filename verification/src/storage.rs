//! Index-addressed storage for what a backend has loaded.

use vstd::prelude::*;

verus! {

/// Keeps the resources of one kind that a backend has loaded (textures,
/// fonts, sounds, music), each under the index that [`SdlAssetStorage::add`]
/// returned for it. Resources are never moved or dropped.
pub struct SdlAssetStorage<A> {
    assets: Vec<A>,
}

impl<A> View for SdlAssetStorage<A> {
    type V = Seq<A>;

    /// The stored resources; the index of a resource is its place.
    closed spec fn view(&self) -> Seq<A> {
        self.assets@
    }
}

impl<A> SdlAssetStorage<A> {
    /// How many resources are stored.
    pub fn len(&self) -> (len: usize)
        ensures
            len == self@.len(),
    {
        self.assets.len()
    }

    /// Stores `asset` behind all others and returns its index.
    pub fn add(&mut self, asset: A) -> (index: usize)
        ensures
            final(self)@ == old(self)@.push(asset),
            index == old(self)@.len(),
    {
        let index = self.assets.len();
        self.assets.push(asset);
        index
    }

    /// The resource at `index`.
    pub fn at(&self, index: usize) -> (asset: &A)
        requires
            index < self@.len(),
        ensures
            *asset == self@[index as int],
    {
        &self.assets[index]
    }

    /// The resource at `index`, for changing it in place. Every other
    /// resource stays as it is.
    pub fn at_mut(&mut self, index: usize) -> (asset: &mut A)
        requires
            index < old(self)@.len(),
        ensures
            *asset == old(self)@[index as int],
            final(self)@ == old(self)@.update(index as int, *final(asset)),
    {
        &mut self.assets[index]
    }
}

impl<A> Default for SdlAssetStorage<A> {
    fn default() -> (storage: SdlAssetStorage<A>)
        ensures
            storage@ == Seq::<A>::empty(),
    {
        SdlAssetStorage { assets: Vec::default() }
    }
}

} // verus!
