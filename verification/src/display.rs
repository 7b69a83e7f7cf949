//! Geometry of the optional diagnostic display.
//!
//! Bringing up the SPI-attached panel is a best-effort side operation:
//! its failure is logged and swallowed, never propagated into the storage
//! bring-up. What the library owns of it is the arithmetic: a panel whose
//! visible area sits below a vertical offset, the size the driver must be
//! told, and the rectangle that exactly covers the visible area.

use vstd::prelude::*;

verus! {

/// Why the diagnostic display path failed. Always absorbed by the
/// caller; never an error of the storage path.
#[derive(Clone, Copy, Debug, PartialEq, Eq, Structural)]
pub enum DisplayError {
    /// The panel did not initialize.
    PanelInitFailed,
    /// Drawing the diagnostic primitive failed.
    DrawFailed,
}

/// An axis-aligned rectangle in panel coordinates.
#[derive(Clone, Copy, Debug, PartialEq, Eq, Structural)]
pub struct Rect {
    pub x: u16,
    pub y: u16,
    pub width: u16,
    pub height: u16,
}

/// A panel whose visible area starts `v_offset` rows below the origin
/// the controller addresses.
#[derive(Clone, Copy, Debug)]
pub struct PanelGeometry {
    /// Visible width in pixels.
    pub width: u16,
    /// Visible height in pixels.
    pub visible_height: u16,
    /// Rows the controller addresses above the visible area.
    pub v_offset: u16,
}

impl PanelGeometry {
    /// The addressed height fits the coordinate space.
    pub open spec fn wf(self) -> bool {
        self.visible_height + self.v_offset <= u16::MAX
    }

    /// The height the display driver must be initialized with.
    pub open spec fn driver_height_spec(self) -> int {
        self.visible_height + self.v_offset
    }

    /// The height the display driver must be initialized with: the
    /// visible rows plus the offset rows above them.
    pub fn driver_height(&self) -> (r: u16)
        requires
            self.wf(),
        ensures
            r == self.driver_height_spec(),
    {
        self.visible_height + self.v_offset
    }

    /// The rectangle that exactly covers the visible area: full width,
    /// starting below the offset rows.
    pub fn diagnostic_rect(&self) -> (r: Rect)
        requires
            self.wf(),
        ensures
            r.x == 0 && r.y == self.v_offset,
            r.width == self.width && r.height == self.visible_height,
            r.y + r.height == self.driver_height_spec(),
    {
        Rect { x: 0, y: self.v_offset, width: self.width, height: self.visible_height }
    }
}

} // verus!
