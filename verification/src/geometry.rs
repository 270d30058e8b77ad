//! Bounding-rect algebra: positions, sizes and rectangles in page/client
//! coordinates, with the open-interval containment test and the
//! translate-by-position operation used to turn locally solved rectangles
//! into page-relative ones.

use vstd::prelude::*;

verus! {

/// Offset of a node's box from its positioning ancestor, in whole pixels.
#[derive(Debug, PartialEq, Eq, Structural, Copy, Clone)]
pub struct LayoutClientPosition {
    pub left: u32,
    pub top: u32,
}

impl Default for LayoutClientPosition {
    fn default() -> (r: Self)
        ensures
            r == (LayoutClientPosition { left: 0, top: 0 }),
    {
        LayoutClientPosition { left: 0, top: 0 }
    }
}

impl LayoutClientPosition {
    /// Componentwise sum of two offsets; zero is the identity.
    pub fn plus(self, rhs: LayoutClientPosition) -> (r: LayoutClientPosition)
        requires
            self.left + rhs.left <= u32::MAX,
            self.top + rhs.top <= u32::MAX,
        ensures
            r.left == self.left + rhs.left,
            r.top == self.top + rhs.top,
    {
        LayoutClientPosition { left: self.left + rhs.left, top: self.top + rhs.top }
    }
}

/// Extent of a node's box, in whole pixels.
#[derive(Debug, PartialEq, Eq, Structural, Copy, Clone)]
pub struct LayoutClientSize {
    pub width: u32,
    pub height: u32,
}

impl Default for LayoutClientSize {
    fn default() -> (r: Self)
        ensures
            r == (LayoutClientSize { width: 0, height: 0 }),
    {
        LayoutClientSize { width: 0, height: 0 }
    }
}

impl LayoutClientSize {
    /// Componentwise sum of two extents; zero is the identity.
    pub fn plus(self, rhs: LayoutClientSize) -> (r: LayoutClientSize)
        requires
            self.width + rhs.width <= u32::MAX,
            self.height + rhs.height <= u32::MAX,
        ensures
            r.width == self.width + rhs.width,
            r.height == self.height + rhs.height,
    {
        LayoutClientSize { width: self.width + rhs.width, height: self.height + rhs.height }
    }
}

/// A node's box: a position relative to some origin plus a size. The local
/// rectangle of a node uses the parent's content origin; the global one is
/// the local rectangle translated by the node's computed ancestor offset.
#[derive(Debug, PartialEq, Eq, Structural, Copy, Clone)]
pub struct LayoutBoundingClientRect {
    pub position: LayoutClientPosition,
    pub size: LayoutClientSize,
}

impl Default for LayoutBoundingClientRect {
    fn default() -> (r: Self)
        ensures
            r == LayoutBoundingClientRect::spec_zero(),
    {
        LayoutBoundingClientRect {
            position: LayoutClientPosition { left: 0, top: 0 },
            size: LayoutClientSize { width: 0, height: 0 },
        }
    }
}

impl LayoutBoundingClientRect {
    /// The all-zero rectangle.
    pub open spec fn spec_zero() -> LayoutBoundingClientRect {
        LayoutBoundingClientRect {
            position: LayoutClientPosition { left: 0, top: 0 },
            size: LayoutClientSize { width: 0, height: 0 },
        }
    }

    /// The rectangle translated by an ancestor offset: the position moves,
    /// the size is untouched.
    pub open spec fn spec_translated(self, rhs: LayoutClientPosition) -> LayoutBoundingClientRect {
        LayoutBoundingClientRect {
            position: LayoutClientPosition {
                left: (self.position.left + rhs.left) as u32,
                top: (self.position.top + rhs.top) as u32,
            },
            size: self.size,
        }
    }

    /// Strict open-interval containment: a point on any of the four edges
    /// is outside.
    pub open spec fn spec_contains_point(self, point: (u32, u32)) -> bool {
        &&& self.position.left < point.0
        &&& self.position.top < point.1
        &&& self.position.left + self.size.width > point.0
        &&& self.position.top + self.size.height > point.1
    }

    pub fn new(left: u32, top: u32, width: u32, height: u32) -> (r: Self)
        ensures
            r.position.left == left,
            r.position.top == top,
            r.size.width == width,
            r.size.height == height,
    {
        LayoutBoundingClientRect {
            position: LayoutClientPosition { left, top },
            size: LayoutClientSize { width, height },
        }
    }

    /// The same rectangle with its position zeroed out, used when an
    /// external offset must not be counted twice.
    pub fn zero_position(self) -> (r: Self)
        ensures
            r.position == (LayoutClientPosition { left: 0, top: 0 }),
            r.size == self.size,
    {
        LayoutBoundingClientRect {
            position: LayoutClientPosition { left: 0, top: 0 },
            size: self.size,
        }
    }

    /// The same rectangle with its size zeroed out.
    pub fn zero_size(self) -> (r: Self)
        ensures
            r.position == self.position,
            r.size == (LayoutClientSize { width: 0, height: 0 }),
    {
        LayoutBoundingClientRect {
            position: self.position,
            size: LayoutClientSize { width: 0, height: 0 },
        }
    }

    pub fn position(&self) -> (r: LayoutClientPosition)
        ensures
            r == self.position,
    {
        self.position
    }

    pub fn size(&self) -> (r: LayoutClientSize)
        ensures
            r == self.size,
    {
        self.size
    }

    /// Page coordinates shifted by this rectangle's position. Padding and
    /// border insets are knowingly not applied: this is a plain additive
    /// translation, not a true content-box conversion.
    pub fn offset_from_page(&self, point: (u32, u32)) -> (r: (u32, u32))
        requires
            self.position.left + point.0 <= u32::MAX,
            self.position.top + point.1 <= u32::MAX,
        ensures
            r.0 == self.position.left + point.0,
            r.1 == self.position.top + point.1,
    {
        (self.position.left + point.0, self.position.top + point.1)
    }

    /// Same additive translation as `offset_from_page`.
    pub fn client_from_page(&self, point: (u32, u32)) -> (r: (u32, u32))
        requires
            self.position.left + point.0 <= u32::MAX,
            self.position.top + point.1 <= u32::MAX,
        ensures
            r.0 == self.position.left + point.0,
            r.1 == self.position.top + point.1,
    {
        (self.position.left + point.0, self.position.top + point.1)
    }

    /// Open-interval point test; the widened arithmetic makes the exec
    /// comparison agree with the mathematical predicate for every input.
    pub fn contains_point(&self, point: (u32, u32)) -> (r: bool)
        ensures
            r == self.spec_contains_point(point),
    {
        let left: u64 = self.position.left as u64;
        let top: u64 = self.position.top as u64;
        let width: u64 = self.size.width as u64;
        let height: u64 = self.size.height as u64;
        let x: u64 = point.0 as u64;
        let y: u64 = point.1 as u64;
        left < x && top < y && left + width > x && top + height > y
    }

    /// The translate-by-position operation: composes a locally solved
    /// rectangle with an ancestor's already-resolved page offset.
    pub fn translated(self, rhs: LayoutClientPosition) -> (r: Self)
        requires
            self.position.left + rhs.left <= u32::MAX,
            self.position.top + rhs.top <= u32::MAX,
        ensures
            r == self.spec_translated(rhs),
    {
        LayoutBoundingClientRect {
            position: LayoutClientPosition {
                left: self.position.left + rhs.left,
                top: self.position.top + rhs.top,
            },
            size: self.size,
        }
    }
}

/// Translation moves a rectangle's position componentwise and never its
/// size: for every rectangle and offset, the translated rectangle keeps
/// the original extent.
pub proof fn lemma_translation_moves_position_only(
    r: LayoutBoundingClientRect,
    p: LayoutClientPosition,
)
    ensures
        r.spec_translated(p).size == r.size,
        r.spec_translated(p).position.left == ((r.position.left + p.left) as u32),
        r.spec_translated(p).position.top == ((r.position.top + p.top) as u32),
{
}

/// Containment is open on all four sides: a point exactly on the left or
/// top edge is outside, and so is one exactly on the right or bottom edge.
pub proof fn lemma_containment_open_boundary(r: LayoutBoundingClientRect, x: u32, y: u32)
    ensures
        x == r.position.left ==> !r.spec_contains_point((x, y)),
        y == r.position.top ==> !r.spec_contains_point((x, y)),
        x == r.position.left + r.size.width ==> !r.spec_contains_point((x, y)),
        y == r.position.top + r.size.height ==> !r.spec_contains_point((x, y)),
{
}

} // verus!
