//! Screen-space points, colours and vectors.

use vstd::prelude::*;

verus! {

/// The largest coordinate that a [`Point`] holds.
pub const MAX_COORDINATE: i32 = 0x3fff_ffff;

/// The smallest coordinate that a [`Point`] holds.
pub const MIN_COORDINATE: i32 = -0x4000_0000;

/// The coordinate nearest to `value` that a [`Point`] can hold.
pub open spec fn clamp_coordinate(value: int) -> int {
    if value > MAX_COORDINATE {
        MAX_COORDINATE as int
    } else if value < MIN_COORDINATE {
        MIN_COORDINATE as int
    } else {
        value
    }
}

/// A pixel position on the screen.
///
/// Both coordinates lie between [`MIN_COORDINATE`] and [`MAX_COORDINATE`],
/// half the range of an `i32`, so that the difference of two points can
/// always be computed.
#[derive(Clone, Copy, Debug, PartialEq, Eq, Structural)]
pub struct Point {
    x: i32,
    y: i32,
}

impl View for Point {
    type V = (int, int);

    /// The horizontal and the vertical coordinate.
    closed spec fn view(&self) -> (int, int) {
        (self.x as int, self.y as int)
    }
}

impl Point {
    #[verifier::type_invariant]
    spec fn in_range(self) -> bool {
        &&& MIN_COORDINATE <= self.x <= MAX_COORDINATE
        &&& MIN_COORDINATE <= self.y <= MAX_COORDINATE
    }

    /// The point at `x` and `y`, each moved into the range of coordinates.
    pub closed spec fn clamped(x: int, y: int) -> Point {
        Point { x: clamp_coordinate(x) as i32, y: clamp_coordinate(y) as i32 }
    }

    /// The point at `x` and `y`, each moved into the range of coordinates.
    pub fn new(x: i32, y: i32) -> (point: Point)
        ensures
            point == Point::clamped(x as int, y as int),
            point@ == (clamp_coordinate(x as int), clamp_coordinate(y as int)),
    {
        Point { x: Self::clamp(x), y: Self::clamp(y) }
    }

    fn clamp(value: i32) -> (clamped: i32)
        ensures
            clamped == clamp_coordinate(value as int),
    {
        if value > MAX_COORDINATE {
            MAX_COORDINATE
        } else if value < MIN_COORDINATE {
            MIN_COORDINATE
        } else {
            value
        }
    }

    /// The horizontal coordinate.
    pub fn x(&self) -> (x: i32)
        ensures
            x == self@.0,
            MIN_COORDINATE <= x <= MAX_COORDINATE,
    {
        proof {
            use_type_invariant(self);
        }
        self.x
    }

    /// The vertical coordinate.
    pub fn y(&self) -> (y: i32)
        ensures
            y == self@.1,
            MIN_COORDINATE <= y <= MAX_COORDINATE,
    {
        proof {
            use_type_invariant(self);
        }
        self.y
    }

    /// The point that lies as far from the origin as `self` lies from
    /// `origin`, moved into the range of coordinates.
    pub closed spec fn seen_from(self, origin: Point) -> Point {
        Point::clamped(self.x - origin.x, self.y - origin.y)
    }

    /// The point that lies as far from the origin as `self` lies from
    /// `origin`, moved into the range of coordinates.
    pub fn relative_to(self, origin: Point) -> (point: Point)
        ensures
            point == self.seen_from(origin),
            point@ == (
                clamp_coordinate(self@.0 - origin@.0),
                clamp_coordinate(self@.1 - origin@.1),
            ),
    {
        proof {
            use_type_invariant(self);
            use_type_invariant(origin);
        }
        Point::new(self.x - origin.x, self.y - origin.y)
    }
}

/// The coordinates of [`Point::clamped`].
pub proof fn lemma_clamped_point(x: int, y: int)
    ensures
        Point::clamped(x, y)@ == (clamp_coordinate(x), clamp_coordinate(y)),
{
}

/// The coordinates of [`Point::seen_from`].
pub proof fn lemma_seen_from(point: Point, origin: Point)
    ensures
        point.seen_from(origin)@ == (
            clamp_coordinate(point@.0 - origin@.0),
            clamp_coordinate(point@.1 - origin@.1),
        ),
{
}

/// Two points are the same point exactly when their coordinates agree.
pub proof fn lemma_point_is_its_coordinates(a: Point, b: Point)
    ensures
        (a == b) <==> (a@ == b@),
{
}

/// A colour, by its red, green, blue and alpha parts.
#[derive(Clone, Copy, Debug, PartialEq, Eq, Structural)]
pub struct Color {
    pub r: u8,
    pub g: u8,
    pub b: u8,
    pub a: u8,
}

impl Color {
    /// Opaque white: drawn with it, a texture keeps its own colours.
    pub open spec fn untinted() -> Color {
        Color { r: 255, g: 255, b: 255, a: 255 }
    }

    /// Opaque white: drawn with it, a texture keeps its own colours.
    pub fn white() -> (color: Color)
        ensures
            color == Color::untinted(),
    {
        Color { r: 255, g: 255, b: 255, a: 255 }
    }

    /// The opaque colour with these parts.
    pub fn rgb(r: u8, g: u8, b: u8) -> (color: Color)
        ensures
            color == (Color { r, g, b, a: 255 }),
    {
        Color { r, g, b, a: 255 }
    }

    /// The colour with these parts.
    pub fn rgba(r: u8, g: u8, b: u8, a: u8) -> (color: Color)
        ensures
            color == (Color { r, g, b, a }),
    {
        Color { r, g, b, a }
    }
}

/// A position in the world, in whole pixels.
#[derive(Clone, Copy, Debug, PartialEq, Eq, Structural)]
pub struct Vector2 {
    pub x: i32,
    pub y: i32,
}

impl Default for Vector2 {
    fn default() -> (vector: Vector2)
        ensures
            vector == (Vector2 { x: 0, y: 0 }),
    {
        Vector2 { x: 0, y: 0 }
    }
}

} // verus!
