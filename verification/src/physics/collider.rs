//! An axis-aligned box collider and its overlap cast, on `FP_ONE`-scaled
//! coordinates.

use vstd::prelude::*;

use crate::math::{vec2_in_bounds, Vec2, COORD_LIMIT};

verus! {

/// An axis-aligned box centered on `origin`.
#[derive(Clone, Copy, Debug, PartialEq, Eq, Structural)]
pub struct Collider {
    pub origin: Vec2,
    pub width: i64,
    pub height: i64,
}

pub open spec fn collider_in_bounds(c: Collider) -> bool {
    &&& vec2_in_bounds(c.origin)
    &&& 0 <= c.width <= COORD_LIMIT
    &&& 0 <= c.height <= COORD_LIMIT
}

pub open spec fn spec_up(c: Collider) -> int {
    c.origin.y + c.height / 2
}

pub open spec fn spec_down(c: Collider) -> int {
    c.origin.y - c.height / 2
}

pub open spec fn spec_left(c: Collider) -> int {
    c.origin.x - c.width / 2
}

pub open spec fn spec_right(c: Collider) -> int {
    c.origin.x + c.width / 2
}

/// Whether the box `c`, displaced by `off`, overlaps the box `other`
/// displaced by `other_off`: its edges must cut strictly into the other's
/// horizontal and vertical extents.
pub open spec fn spec_cast(c: Collider, off: Vec2, other: Collider, other_off: Vec2) -> bool {
    let horz = {
        ||| spec_right(c) + off.x > spec_left(other) + other_off.x && spec_right(c) + off.x
            < spec_right(other) + other_off.x
        ||| spec_left(c) + off.x < spec_right(other) + other_off.x && spec_left(c) + off.x
            > spec_left(other) + other_off.x
    };
    let vert = {
        ||| spec_up(c) + off.y > spec_down(other) + other_off.y && spec_up(c) + off.y < spec_up(
            other,
        ) + other_off.y
        ||| spec_down(c) + off.y < spec_up(other) + other_off.y && spec_down(c) + off.y
            > spec_down(other) + other_off.y
    };
    horz && vert
}

impl Collider {
    /// The `y` coordinate of the top edge.
    pub fn up(&self) -> (r: i64)
        requires
            collider_in_bounds(*self),
        ensures
            r == spec_up(*self),
    {
        self.origin.y + ((self.height as u64 / 2) as i64)
    }

    /// The `y` coordinate of the bottom edge.
    pub fn down(&self) -> (r: i64)
        requires
            collider_in_bounds(*self),
        ensures
            r == spec_down(*self),
    {
        self.origin.y - ((self.height as u64 / 2) as i64)
    }

    /// The `x` coordinate of the left edge.
    pub fn left(&self) -> (r: i64)
        requires
            collider_in_bounds(*self),
        ensures
            r == spec_left(*self),
    {
        self.origin.x - ((self.width as u64 / 2) as i64)
    }

    /// The `x` coordinate of the right edge.
    pub fn right(&self) -> (r: i64)
        requires
            collider_in_bounds(*self),
        ensures
            r == spec_right(*self),
    {
        self.origin.x + ((self.width as u64 / 2) as i64)
    }

    fn check_overlap_up(&self, offset: i64, other: &Self, other_offset: i64) -> (r: bool)
        requires
            collider_in_bounds(*self),
            collider_in_bounds(*other),
            -COORD_LIMIT <= offset <= COORD_LIMIT,
            -COORD_LIMIT <= other_offset <= COORD_LIMIT,
        ensures
            r == (spec_up(*self) + offset > spec_down(*other) + other_offset && spec_up(*self)
                + offset < spec_up(*other) + other_offset),
    {
        self.up() + offset > other.down() + other_offset && self.up() + offset < other.up()
            + other_offset
    }

    fn check_overlap_down(&self, offset: i64, other: &Self, other_offset: i64) -> (r: bool)
        requires
            collider_in_bounds(*self),
            collider_in_bounds(*other),
            -COORD_LIMIT <= offset <= COORD_LIMIT,
            -COORD_LIMIT <= other_offset <= COORD_LIMIT,
        ensures
            r == (spec_down(*self) + offset < spec_up(*other) + other_offset && spec_down(*self)
                + offset > spec_down(*other) + other_offset),
    {
        self.down() + offset < other.up() + other_offset && self.down() + offset > other.down()
            + other_offset
    }

    fn check_overlap_left(&self, offset: i64, other: &Self, other_offset: i64) -> (r: bool)
        requires
            collider_in_bounds(*self),
            collider_in_bounds(*other),
            -COORD_LIMIT <= offset <= COORD_LIMIT,
            -COORD_LIMIT <= other_offset <= COORD_LIMIT,
        ensures
            r == (spec_left(*self) + offset < spec_right(*other) + other_offset && spec_left(
                *self,
            ) + offset > spec_left(*other) + other_offset),
    {
        self.left() + offset < other.right() + other_offset && self.left() + offset > other.left()
            + other_offset
    }

    fn check_overlap_right(&self, offset: i64, other: &Self, other_offset: i64) -> (r: bool)
        requires
            collider_in_bounds(*self),
            collider_in_bounds(*other),
            -COORD_LIMIT <= offset <= COORD_LIMIT,
            -COORD_LIMIT <= other_offset <= COORD_LIMIT,
        ensures
            r == (spec_right(*self) + offset > spec_left(*other) + other_offset && spec_right(
                *self,
            ) + offset < spec_right(*other) + other_offset),
    {
        self.right() + offset > other.left() + other_offset && self.right() + offset < other.right()
            + other_offset
    }

    fn check_overlap_horz(&self, offset: i64, other: &Self, other_offset: i64) -> (r: bool)
        requires
            collider_in_bounds(*self),
            collider_in_bounds(*other),
            -COORD_LIMIT <= offset <= COORD_LIMIT,
            -COORD_LIMIT <= other_offset <= COORD_LIMIT,
        ensures
            r == (spec_right(*self) + offset > spec_left(*other) + other_offset && spec_right(
                *self,
            ) + offset < spec_right(*other) + other_offset || spec_left(*self) + offset
                < spec_right(*other) + other_offset && spec_left(*self) + offset > spec_left(
                *other,
            ) + other_offset),
    {
        self.check_overlap_right(offset, other, other_offset) || self.check_overlap_left(
            offset,
            other,
            other_offset,
        )
    }

    fn check_overlap_vert(&self, offset: i64, other: &Self, other_offset: i64) -> (r: bool)
        requires
            collider_in_bounds(*self),
            collider_in_bounds(*other),
            -COORD_LIMIT <= offset <= COORD_LIMIT,
            -COORD_LIMIT <= other_offset <= COORD_LIMIT,
        ensures
            r == (spec_up(*self) + offset > spec_down(*other) + other_offset && spec_up(*self)
                + offset < spec_up(*other) + other_offset || spec_down(*self) + offset < spec_up(
                *other,
            ) + other_offset && spec_down(*self) + offset > spec_down(*other) + other_offset),
    {
        self.check_overlap_up(offset, other, other_offset) || self.check_overlap_down(
            offset,
            other,
            other_offset,
        )
    }

    /// Cast this collider, displaced by `offset`, against `other` displaced
    /// by `other_offset`.
    pub fn cast(&self, offset: Vec2, other: &Self, other_offset: Vec2) -> (r: bool)
        requires
            collider_in_bounds(*self),
            collider_in_bounds(*other),
            vec2_in_bounds(offset),
            vec2_in_bounds(other_offset),
        ensures
            r == spec_cast(*self, offset, *other, other_offset),
    {
        self.check_overlap_horz(offset.x, other, other_offset.x) && self.check_overlap_vert(
            offset.y,
            other,
            other_offset.y,
        )
    }
}

} // verus!
