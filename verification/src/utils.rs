//! Bookkeeping the renderer hands to gameplay: the extent an asset is
//! drawn at, which the hit systems use as its collision footprint.

use crate::geometry::Vec2i;
use vstd::prelude::*;

verus! {

/// The extent an entity is rendered at, in milli-pixels.
#[derive(Clone, Copy, PartialEq, Eq, Structural, Debug)]
pub struct RenderedAssetInfo {
    pub size: Vec2i,
}

impl RenderedAssetInfo {
    pub fn new(size: Vec2i) -> (r: RenderedAssetInfo)
        ensures
            r.size == size,
    {
        RenderedAssetInfo { size }
    }
}

} // verus!
