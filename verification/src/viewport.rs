//! Reconciling the render surface with the embedding page's viewport.
//!
//! On a browser host the render surface must track the embedding page: once
//! per frame the host reads the page's current viewport size and this module
//! decides whether the surface must be resized.  Sizes are whole pixels.

use vstd::prelude::*;

verus! {

/// A render-surface or viewport size in whole pixels.
#[derive(Clone, Copy, Debug, PartialEq, Eq, Structural)]
pub struct ViewportSize {
    pub width: u32,
    pub height: u32,
}

/// Decide whether the render surface must be resized to track the page.
///
/// Returns the size to write — the page's size — exactly when either
/// dimension of the surface differs from the page, and `None` when the two
/// already agree, so that a frame with no change writes nothing.
pub fn resize_target(surface: ViewportSize, page: ViewportSize) -> (r: Option<ViewportSize>)
    ensures
        surface == page <==> r is None,
        surface != page <==> r == Some(page),
{
    if surface.width != page.width || surface.height != page.height {
        Some(page)
    } else {
        None
    }
}

} // verus!
