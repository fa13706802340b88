//! Entities of the simulation: paddles and the ball, and the axis-aligned
//! boxes used for collision tests.

use vstd::prelude::*;
use crate::COORD_MAX;

verus! {

/// A point or displacement in field coordinates, in hundredths of a pixel.
/// The origin is the top-left corner; x grows rightward, y grows downward.
#[derive(Clone, Copy, PartialEq, Eq, Structural, Debug)]
pub struct Vec2 {
    pub x: i64,
    pub y: i64,
}

/// An axis-aligned box: top-left corner plus extent.
#[derive(Clone, Copy, PartialEq, Eq, Structural, Debug)]
pub struct Rectangle {
    pub x: i64,
    pub y: i64,
    pub width: i64,
    pub height: i64,
}

/// A paddle or the ball.
///
/// `size` is fixed for the entity's lifetime (it comes from the dimensions
/// of the entity's visual asset). Paddles keep a zero velocity — they are
/// moved directly by input — and only paddles use `points`.
#[derive(Clone, Copy, PartialEq, Eq, Structural, Debug)]
pub struct Entity {
    pub position: Vec2,
    pub velocity: Vec2,
    pub width: i64,
    pub height: i64,
    pub points: u32,
}

/// Mathematical model of a [`Vec2`].
pub struct Vec2V {
    pub x: int,
    pub y: int,
}

impl View for Vec2 {
    type V = Vec2V;

    open spec fn view(&self) -> Vec2V {
        Vec2V { x: self.x as int, y: self.y as int }
    }
}

/// Mathematical model of an [`Entity`].
pub struct EntityV {
    pub position: Vec2V,
    pub velocity: Vec2V,
    pub width: int,
    pub height: int,
    pub points: int,
}

impl View for Entity {
    type V = EntityV;

    open spec fn view(&self) -> EntityV {
        EntityV {
            position: self.position@,
            velocity: self.velocity@,
            width: self.width as int,
            height: self.height as int,
            points: self.points as int,
        }
    }
}

/// True when two boxes, each given as top-left corner plus extent, overlap
/// with positive area on both axes. Touching edges do not count.
pub open spec fn boxes_intersect(
    ax: int,
    ay: int,
    aw: int,
    ah: int,
    bx: int,
    by: int,
    bw: int,
    bh: int,
) -> bool {
    &&& ax < bx + bw
    &&& ax + aw > bx
    &&& ay < by + bh
    &&& ay + ah > by
}

/// The bounding boxes of two entities overlap.
pub open spec fn entities_intersect(a: EntityV, b: EntityV) -> bool {
    boxes_intersect(
        a.position.x,
        a.position.y,
        a.width,
        a.height,
        b.position.x,
        b.position.y,
        b.width,
        b.height,
    )
}

/// Fields small enough that the sums in an intersection test fit in `i64`.
pub open spec fn rect_bounded(r: Rectangle) -> bool {
    &&& -2 * COORD_MAX <= r.x <= 2 * COORD_MAX
    &&& -2 * COORD_MAX <= r.y <= 2 * COORD_MAX
    &&& 0 <= r.width <= COORD_MAX
    &&& 0 <= r.height <= COORD_MAX
}

impl Rectangle {
    /// Exact overlap test between two boxes.
    pub fn intersects(&self, other: &Rectangle) -> (r: bool)
        requires
            rect_bounded(*self),
            rect_bounded(*other),
        ensures
            r == boxes_intersect(
                self.x as int,
                self.y as int,
                self.width as int,
                self.height as int,
                other.x as int,
                other.y as int,
                other.width as int,
                other.height as int,
            ),
    {
        self.x < other.x + other.width && self.x + self.width > other.x
            && self.y < other.y + other.height && self.y + self.height > other.y
    }
}

impl Entity {
    /// Builds an entity; used for the ball, whose velocity is nonzero.
    pub fn with_velocity(position: Vec2, velocity: Vec2, width: i64, height: i64, points: u32) -> (e:
        Entity)
        ensures
            e == (Entity { position, velocity, width, height, points }),
    {
        Entity { position, velocity, width, height, points }
    }

    /// Builds an entity; used for the paddles, which carry a score.
    pub fn with_points(position: Vec2, velocity: Vec2, width: i64, height: i64, points: u32) -> (e:
        Entity)
        ensures
            e == (Entity { position, velocity, width, height, points }),
    {
        Entity { position, velocity, width, height, points }
    }

    /// Width of the entity's box.
    pub fn width(&self) -> (w: i64)
        ensures
            w == self.width,
    {
        self.width
    }

    /// Height of the entity's box.
    pub fn height(&self) -> (h: i64)
        ensures
            h == self.height,
    {
        self.height
    }

    /// The entity's bounding box.
    pub fn bounds(&self) -> (r: Rectangle)
        ensures
            r == (Rectangle {
                x: self.position.x,
                y: self.position.y,
                width: self.width,
                height: self.height,
            }),
    {
        Rectangle { x: self.position.x, y: self.position.y, width: self.width, height: self.height }
    }

    /// Centre of the entity's box, rounded down to the fixed-point grid.
    pub fn centre(&self) -> (c: Vec2)
        requires
            0 <= self.width <= COORD_MAX,
            0 <= self.height <= COORD_MAX,
            -2 * COORD_MAX <= self.position.x <= 2 * COORD_MAX,
            -2 * COORD_MAX <= self.position.y <= 2 * COORD_MAX,
        ensures
            c.x == self.position.x + self.width / 2,
            c.y == self.position.y + self.height / 2,
    {
        Vec2 { x: self.position.x + self.width / 2, y: self.position.y + self.height / 2 }
    }
}

} // verus!
