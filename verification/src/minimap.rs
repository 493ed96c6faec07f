//! The minimap snapshot the player machine reads.

use vstd::prelude::*;

use crate::geometry::Rect;

verus! {

/// What is known about the minimap this tick.
#[derive(Clone, Debug)]
pub enum Minimap {
    /// The minimap has not been located on the frame yet.
    Detecting,
    /// The minimap is located; its geometry is available.
    Idle(MinimapIdle),
}

/// Geometry of a located minimap.
#[derive(Clone, Debug)]
pub struct MinimapIdle {
    /// The minimap's bounding box on the frame.
    pub bbox: Rect,
    /// Portal rectangles, in minimap coordinates.
    pub portals: Vec<Rect>,
}

/// The minimap entity: its per-tick state.
#[derive(Clone, Debug)]
pub struct MinimapEntity {
    pub state: Minimap,
}

} // verus!
