//! Classification of pointer positions into window regions, used to emulate
//! the resizable frame of a borderless window.

use vstd::prelude::*;

verus! {

/// Width, in logical units, of the band along each edge that acts as a
/// resize handle.
pub const BORDERLESS_RESIZE_INSET: i64 = 5;

/// Region of the window under the pointer.
#[derive(Debug, Clone, Copy, PartialEq, Eq, Structural)]
pub enum HitTestResult {
    Client,
    Left,
    Right,
    Top,
    Bottom,
    TopLeft,
    TopRight,
    BottomLeft,
    BottomRight,
    NoWhere,
}

/// Direction in which the native window is resized when a frame region is
/// dragged.
#[derive(Debug, Clone, Copy, PartialEq, Eq, Structural)]
pub enum ResizeEdge {
    West,
    East,
    North,
    South,
    NorthWest,
    NorthEast,
    SouthWest,
    SouthEast,
}

/// Pointer shape shown over a region.
#[derive(Debug, Clone, Copy, PartialEq, Eq, Structural)]
pub enum CursorShape {
    Default,
    WResize,
    EResize,
    NResize,
    SResize,
    NwResize,
    NeResize,
    SwResize,
    SeResize,
}

/// The region named by the four edge flags; a combination that names no
/// region (both opposite edges at once) is `NoWhere`.
pub open spec fn region_of_edges(left: bool, right: bool, top: bool, bottom: bool) -> HitTestResult {
    if !left && !right && !top && !bottom {
        HitTestResult::Client
    } else if left && !right && !top && !bottom {
        HitTestResult::Left
    } else if !left && right && !top && !bottom {
        HitTestResult::Right
    } else if !left && !right && top && !bottom {
        HitTestResult::Top
    } else if !left && !right && !top && bottom {
        HitTestResult::Bottom
    } else if left && !right && top && !bottom {
        HitTestResult::TopLeft
    } else if !left && right && top && !bottom {
        HitTestResult::TopRight
    } else if left && !right && !top && bottom {
        HitTestResult::BottomLeft
    } else if !left && right && !top && bottom {
        HitTestResult::BottomRight
    } else {
        HitTestResult::NoWhere
    }
}

/// The region of a window of the given logical size that holds the point
/// `(x, y)`: each edge owns a band `BORDERLESS_RESIZE_INSET` wide, measured
/// inwards, and everything left of (or above) the window counts as the left
/// (or top) band.
pub open spec fn hit_region(width: int, height: int, x: int, y: int) -> HitTestResult {
    region_of_edges(
        x < BORDERLESS_RESIZE_INSET,
        x >= width - BORDERLESS_RESIZE_INSET,
        y < BORDERLESS_RESIZE_INSET,
        y >= height - BORDERLESS_RESIZE_INSET,
    )
}

pub open spec fn spec_resize_edge(region: HitTestResult) -> Option<ResizeEdge> {
    match region {
        HitTestResult::Left => Some(ResizeEdge::West),
        HitTestResult::Right => Some(ResizeEdge::East),
        HitTestResult::Top => Some(ResizeEdge::North),
        HitTestResult::Bottom => Some(ResizeEdge::South),
        HitTestResult::TopLeft => Some(ResizeEdge::NorthWest),
        HitTestResult::TopRight => Some(ResizeEdge::NorthEast),
        HitTestResult::BottomLeft => Some(ResizeEdge::SouthWest),
        HitTestResult::BottomRight => Some(ResizeEdge::SouthEast),
        HitTestResult::Client | HitTestResult::NoWhere => None,
    }
}

pub open spec fn spec_cursor_shape(region: HitTestResult) -> CursorShape {
    match region {
        HitTestResult::Left => CursorShape::WResize,
        HitTestResult::Right => CursorShape::EResize,
        HitTestResult::Top => CursorShape::NResize,
        HitTestResult::Bottom => CursorShape::SResize,
        HitTestResult::TopLeft => CursorShape::NwResize,
        HitTestResult::TopRight => CursorShape::NeResize,
        HitTestResult::BottomLeft => CursorShape::SwResize,
        HitTestResult::BottomRight => CursorShape::SeResize,
        HitTestResult::Client | HitTestResult::NoWhere => CursorShape::Default,
    }
}

impl HitTestResult {
    /// Whether the region is part of the resizable frame.
    pub open spec fn is_frame(self) -> bool {
        !(self is Client) && !(self is NoWhere)
    }

    /// The resize direction that dragging this region starts; `None` for the
    /// regions that do nothing special.
    pub fn resize_edge(&self) -> (r: Option<ResizeEdge>)
        ensures
            r == spec_resize_edge(*self),
            r is Some <==> self.is_frame(),
    {
        match self {
            HitTestResult::Left => Some(ResizeEdge::West),
            HitTestResult::Right => Some(ResizeEdge::East),
            HitTestResult::Top => Some(ResizeEdge::North),
            HitTestResult::Bottom => Some(ResizeEdge::South),
            HitTestResult::TopLeft => Some(ResizeEdge::NorthWest),
            HitTestResult::TopRight => Some(ResizeEdge::NorthEast),
            HitTestResult::BottomLeft => Some(ResizeEdge::SouthWest),
            HitTestResult::BottomRight => Some(ResizeEdge::SouthEast),
            HitTestResult::Client | HitTestResult::NoWhere => None,
        }
    }

    /// The pointer shape to show over this region: a directional arrow over
    /// the frame, the default pointer elsewhere.
    pub fn cursor_shape(&self) -> (r: CursorShape)
        ensures
            r == spec_cursor_shape(*self),
            r is Default <==> !self.is_frame(),
    {
        match self {
            HitTestResult::Left => CursorShape::WResize,
            HitTestResult::Right => CursorShape::EResize,
            HitTestResult::Top => CursorShape::NResize,
            HitTestResult::Bottom => CursorShape::SResize,
            HitTestResult::TopLeft => CursorShape::NwResize,
            HitTestResult::TopRight => CursorShape::NeResize,
            HitTestResult::BottomLeft => CursorShape::SwResize,
            HitTestResult::BottomRight => CursorShape::SeResize,
            HitTestResult::Client | HitTestResult::NoWhere => CursorShape::Default,
        }
    }
}

/// Classifies the pointer position `(x, y)` within a window whose logical
/// size is `width` by `height` (the physical size divided by the display
/// scale, truncated towards zero).
pub fn check_bounds(width: i32, height: i32, x: i32, y: i32) -> (r: HitTestResult)
    ensures
        r == hit_region(width as int, height as int, x as int, y as int),
{
    let w = width as i64;
    let h = height as i64;
    let px = x as i64;
    let py = y as i64;
    let left = px < BORDERLESS_RESIZE_INSET;
    let right = px >= w - BORDERLESS_RESIZE_INSET;
    let top = py < BORDERLESS_RESIZE_INSET;
    let bottom = py >= h - BORDERLESS_RESIZE_INSET;
    if !left && !right && !top && !bottom {
        HitTestResult::Client
    } else if left && !right && !top && !bottom {
        HitTestResult::Left
    } else if !left && right && !top && !bottom {
        HitTestResult::Right
    } else if !left && !right && top && !bottom {
        HitTestResult::Top
    } else if !left && !right && !top && bottom {
        HitTestResult::Bottom
    } else if left && !right && top && !bottom {
        HitTestResult::TopLeft
    } else if !left && right && top && !bottom {
        HitTestResult::TopRight
    } else if left && !right && !top && bottom {
        HitTestResult::BottomLeft
    } else if !left && right && !top && bottom {
        HitTestResult::BottomRight
    } else {
        HitTestResult::NoWhere
    }
}

/// The classifier is a function of its inputs: two classifications of the
/// same sample, by the contract of `check_bounds`, are the same region.
pub proof fn lemma_classification_repeatable(
    width: i32,
    height: i32,
    x: i32,
    y: i32,
    first: HitTestResult,
    second: HitTestResult,
)
    requires
        first == hit_region(width as int, height as int, x as int, y as int),
        second == hit_region(width as int, height as int, x as int, y as int),
    ensures
        first == second,
{
}

/// On a window at least twice the inset wide and tall, no sample is
/// classified `NoWhere`: opposite edge bands never overlap.
pub proof fn lemma_no_nowhere_on_large_windows(width: int, height: int, x: int, y: int)
    requires
        width >= 2 * BORDERLESS_RESIZE_INSET,
        height >= 2 * BORDERLESS_RESIZE_INSET,
    ensures
        hit_region(width, height, x, y) != HitTestResult::NoWhere,
{
}

} // verus!
