//! Tagged 2D coordinates with a cyclic (modulo-6) horizontal axis and an
//! unbounded vertical axis.
//!
//! Points carry a phantom coordinate-space tag so that the geometry of the
//! two rings, which live in disjoint spaces, can never be mixed without an
//! explicit re-tag through [`ModPoint::cast_unit`].

use vstd::prelude::*;

verus! {

/// Number of positions on the cyclic horizontal track.
pub const TRACK_WIDTH: i32 = 6;

/// The coordinate space of the inner ring and the left half of the frame.
#[derive(Debug, Clone, Copy)]
pub struct Inside;

/// The coordinate space of the outer ring and the right half of the frame.
#[derive(Debug, Clone, Copy)]
pub struct Outside;

/// A point with `x` kept in `[0, TRACK_WIDTH)` by wrapping and an unbounded
/// `y`, tagged by the coordinate space `U` it belongs to.
#[derive(Debug, PartialEq, Eq)]
pub struct ModPoint<U> {
    x: i32,
    y: i32,
    _space: core::marker::PhantomData<U>,
}

impl<U> Clone for ModPoint<U> {
    fn clone(&self) -> (r: Self)
        ensures
            r == *self,
    {
        *self
    }
}

impl<U> Copy for ModPoint<U> {}

/// A displacement vector in the coordinate space `U`. Unlike a point, a
/// vector is not wrapped: it only gains meaning when added to a point.
#[derive(Debug)]
pub struct Vec2<U> {
    x: i32,
    y: i32,
    _space: core::marker::PhantomData<U>,
}

impl<U> View for Vec2<U> {
    type V = (int, int);

    closed spec fn view(&self) -> (int, int) {
        (self.x as int, self.y as int)
    }
}

impl<U> Clone for Vec2<U> {
    fn clone(&self) -> (r: Self)
        ensures
            r == *self,
    {
        *self
    }
}

impl<U> Copy for Vec2<U> {}

/// `x` reduced into `[0, 6)`; `%` on `int` is the Euclidean remainder.
pub open spec fn wrap6(x: int) -> int {
    x % 6
}

impl<U> View for ModPoint<U> {
    type V = (int, int);

    closed spec fn view(&self) -> (int, int) {
        (self.x as int, self.y as int)
    }
}

impl<U> ModPoint<U> {
    /// True of every point this module hands out: `x` lies on the track
    /// and both coordinates fit the machine type.
    pub open spec fn wf(self) -> bool {
        &&& 0 <= self@.0 < TRACK_WIDTH
        &&& i32::MIN <= self@.1 <= i32::MAX
    }

    /// Builds a point, wrapping `x` into `[0, TRACK_WIDTH)`.
    pub fn new(x: i32, y: i32) -> (r: Self)
        ensures
            r@ == (wrap6(x as int), y as int),
            r.wf(),
    {
        Self { x: wrap_track(x), y, _space: core::marker::PhantomData }
    }

    /// The horizontal coordinate, always in `[0, TRACK_WIDTH)`.
    pub fn x(&self) -> (r: i32)
        ensures
            r as int == self@.0,
    {
        self.x
    }

    /// The vertical coordinate.
    pub fn y(&self) -> (r: i32)
        ensures
            r as int == self@.1,
    {
        self.y
    }

    /// Explicit, checked re-tag of a point into another coordinate space.
    /// The coordinates are unchanged; only the space tag moves.
    pub fn cast_unit<V>(self) -> (r: ModPoint<V>)
        requires
            self.wf(),
        ensures
            r@ == self@,
            r.wf(),
    {
        ModPoint { x: self.x, y: self.y, _space: core::marker::PhantomData }
    }

    /// Component-wise sum: `x` wraps on the track, `y` accumulates.
    pub fn add(self, rhs: Self) -> (r: Self)
        requires
            self.wf(),
            rhs.wf(),
            i32::MIN <= self@.1 + rhs@.1 <= i32::MAX,
        ensures
            r@ == (wrap6(self@.0 + rhs@.0), self@.1 + rhs@.1),
            r.wf(),
    {
        let x = if self.x + rhs.x >= TRACK_WIDTH {
            self.x + rhs.x - TRACK_WIDTH
        } else {
            self.x + rhs.x
        };
        Self { x, y: self.y + rhs.y, _space: core::marker::PhantomData }
    }

    /// Component-wise difference: `x` wraps on the track, `y` subtracts.
    pub fn sub(self, rhs: Self) -> (r: Self)
        requires
            self.wf(),
            rhs.wf(),
            i32::MIN <= self@.1 - rhs@.1 <= i32::MAX,
        ensures
            r@ == (wrap6(self@.0 - rhs@.0), self@.1 - rhs@.1),
            r.wf(),
    {
        let x = if self.x - rhs.x < 0 {
            self.x - rhs.x + TRACK_WIDTH
        } else {
            self.x - rhs.x
        };
        Self { x, y: self.y - rhs.y, _space: core::marker::PhantomData }
    }

    /// Translates the point by a vector: `x` wraps, `y` accumulates.
    pub fn translate(self, v: Vec2<U>) -> (r: Self)
        requires
            self.wf(),
            i32::MIN <= self@.1 + v@.1 <= i32::MAX,
        ensures
            r@ == (wrap6(self@.0 + v@.0), self@.1 + v@.1),
            r.wf(),
    {
        let dx = wrap_track(v.x);
        let x = if self.x + dx >= TRACK_WIDTH { self.x + dx - TRACK_WIDTH } else { self.x + dx };
        proof {
            lemma_wrap6_add(self@.0, v@.0);
        }
        Self { x, y: self.y + v.y, _space: core::marker::PhantomData }
    }
}

impl<U> Vec2<U> {
    /// Builds a displacement vector.
    pub fn new(x: i32, y: i32) -> (r: Self)
        ensures
            r@ == (x as int, y as int),
    {
        Self { x, y, _space: core::marker::PhantomData }
    }

    /// The horizontal component.
    pub fn x(&self) -> (r: i32)
        ensures
            r as int == self@.0,
    {
        self.x
    }

    /// The vertical component.
    pub fn y(&self) -> (r: i32)
        ensures
            r as int == self@.1,
    {
        self.y
    }

    /// Explicit re-tag of a vector into another coordinate space.
    pub fn cast_unit<V>(self) -> (r: Vec2<V>)
        ensures
            r@ == self@,
    {
        Vec2 { x: self.x, y: self.y, _space: core::marker::PhantomData }
    }
}

/// Reduces an arbitrary `x` into `[0, TRACK_WIDTH)` by Euclidean remainder.
pub fn wrap_track(x: i32) -> (r: i32)
    ensures
        r as int == wrap6(x as int),
        0 <= r < TRACK_WIDTH,
{
    let r = x % TRACK_WIDTH;
    if r < 0 {
        r + TRACK_WIDTH
    } else {
        r
    }
}

/// Adding on the track and then wrapping equals wrapping the addend first:
/// `(a + b) % 6 == (a + b % 6) % 6`.
pub proof fn lemma_wrap6_add(a: int, b: int)
    ensures
        wrap6(a + wrap6(b)) == wrap6(a + b),
{
    vstd::arithmetic::div_mod::lemma_add_mod_noop_right(a, b, 6);
}

/// A wrapped sum stays correct under a further addition:
/// `(a % 6 + b) % 6 == (a + b) % 6`.
pub proof fn lemma_wrap6_add_assoc(a: int, b: int)
    ensures
        wrap6(wrap6(a) + b) == wrap6(a + b),
{
    vstd::arithmetic::div_mod::lemma_add_mod_noop_right(a % 6, b, 6);
    vstd::arithmetic::div_mod::lemma_add_mod_noop(a, b, 6);
    vstd::arithmetic::div_mod::lemma_mod_twice(a, 6);
}

} // verus!
