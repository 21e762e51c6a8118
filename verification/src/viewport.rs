//! Pixel extents and the region of the window that the field is drawn into.

use vstd::prelude::*;

verus! {

/// A size in physical pixels.
#[derive(Clone, Copy, Debug, PartialEq, Eq, Structural)]
pub struct Extent {
    pub width: u32,
    pub height: u32,
}

impl Extent {
    /// An extent with no pixels: nothing can be allocated or presented at it.
    pub open spec fn spec_is_empty(self) -> bool {
        self.width == 0 || self.height == 0
    }

    #[verifier::when_used_as_spec(spec_is_empty)]
    pub fn is_empty(self) -> (empty: bool)
        ensures
            empty == self.spec_is_empty(),
    {
        self.width == 0 || self.height == 0
    }
}

/// The rectangle of the surface that the quad is rasterised into.
#[derive(Clone, Copy, Debug, PartialEq, Eq, Structural)]
pub struct Viewport {
    pub offset_x: u32,
    pub offset_y: u32,
    pub width: u32,
    pub height: u32,
}

/// Width left for the field beside a panel: what remains of the window to the
/// panel's right, but never less than the panel itself.
pub open spec fn drawable_width(window_width: int, panel_width: int) -> int {
    if window_width - panel_width >= panel_width {
        window_width - panel_width
    } else {
        panel_width
    }
}

impl Viewport {
    /// The viewport for a window with a panel along its left edge.
    pub open spec fn spec_for_window(window: Extent, panel_width: u32) -> Viewport {
        Viewport {
            offset_x: panel_width,
            offset_y: 0,
            width: drawable_width(window.width as int, panel_width as int) as u32,
            height: window.height,
        }
    }

    /// Pushes the drawable region right by the panel's width and keeps it at
    /// least as wide as the panel.
    #[verifier::when_used_as_spec(spec_for_window)]
    pub fn for_window(window: Extent, panel_width: u32) -> (viewport: Viewport)
        ensures
            viewport == Self::spec_for_window(window, panel_width),
            viewport.offset_x == panel_width,
            viewport.offset_y == 0,
            viewport.width == drawable_width(window.width as int, panel_width as int),
            viewport.height == window.height,
    {
        let width: u32 = if window.width >= panel_width && window.width - panel_width
            >= panel_width {
            window.width - panel_width
        } else {
            panel_width
        };
        Viewport { offset_x: panel_width, offset_y: 0, width, height: window.height }
    }

    /// The drawable width is the larger of the panel's width and what the
    /// panel leaves of the window, so it always fits the pixel type.
    pub proof fn lemma_drawable_width(window_width: u32, panel_width: u32)
        ensures
            drawable_width(window_width as int, panel_width as int) >= panel_width,
            drawable_width(window_width as int, panel_width as int) >= window_width - panel_width,
            drawable_width(window_width as int, panel_width as int) == panel_width
                || drawable_width(window_width as int, panel_width as int) == window_width
                - panel_width,
            0 <= drawable_width(window_width as int, panel_width as int) <= u32::MAX,
    {
    }
}

} // verus!
