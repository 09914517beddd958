//! Editor selection state.

use vstd::prelude::*;

use crate::ids::{ClipId, MediaAssetId, TrackId};

verus! {

/// Single-selection target for the editor domain.
#[derive(Debug, Clone, Copy, PartialEq, Eq, Hash, Structural)]
pub enum Selection {
    /// Nothing selected.
    Nothing,
    /// A registered media asset.
    MediaAsset(MediaAssetId),
    /// A timeline track.
    Track(TrackId),
    /// A timeline clip.
    Clip(ClipId),
}

impl Default for Selection {
    fn default() -> (s: Self)
        ensures
            s == Selection::Nothing,
    {
        Selection::Nothing
    }
}

} // verus!
