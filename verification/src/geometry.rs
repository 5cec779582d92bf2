//! Screen geometry types and the geometry resolver.
//!
//! The resolver computes the target rectangle for a view from the owning
//! output's resolution and the view's type tag: generic views fill the whole
//! output, specialized views (popups, overlays, decorated surfaces) keep the
//! geometry they requested themselves.

use vstd::prelude::*;

verus! {

/// A position in output-local pixel coordinates.
#[derive(Clone, Copy, PartialEq, Eq, Structural, Debug)]
pub struct Point {
    pub x: i32,
    pub y: i32,
}

/// A size in device pixels; also used for an output's resolution.
#[derive(Clone, Copy, PartialEq, Eq, Structural, Debug)]
pub struct Size {
    pub w: u32,
    pub h: u32,
}

/// A screen rectangle: origin and size in output-local pixel coordinates.
#[derive(Clone, Copy, PartialEq, Eq, Structural, Debug)]
pub struct Geometry {
    pub origin: Point,
    pub size: Size,
}

/// The view's type tag, as far as layout policy cares: a generic (normal)
/// window is stacked full-screen, every specialized surface type is left at
/// its own requested geometry.
#[derive(Clone, Copy, PartialEq, Eq, Structural, Debug)]
pub enum ViewKind {
    Generic,
    Specialized,
}

/// The full-output rectangle for a given resolution.
pub open spec fn full_output_geometry(resolution: Size) -> Geometry {
    Geometry {
        origin: Point { x: 0, y: 0 },
        size: resolution,
    }
}

/// What the resolver answers for a view of kind `kind` on an output of the
/// given resolution: the full-output rectangle for generic views, nothing
/// (leave the view untouched) for specialized ones.
pub open spec fn resolved_geometry(resolution: Size, kind: ViewKind) -> Option<Geometry> {
    match kind {
        ViewKind::Generic => Some(full_output_geometry(resolution)),
        ViewKind::Specialized => None,
    }
}

/// Geometry resolver: pure function of the output resolution and view kind.
pub fn resolve_view_geometry(resolution: Size, kind: ViewKind) -> (r: Option<Geometry>)
    ensures
        r == resolved_geometry(resolution, kind),
{
    match kind {
        ViewKind::Generic => Some(Geometry {
            origin: Point { x: 0, y: 0 },
            size: resolution,
        }),
        ViewKind::Specialized => None,
    }
}

} // verus!
