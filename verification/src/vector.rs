//! Two- and three-component vectors of fixed-point numbers.

use vstd::prelude::*;
use crate::fixed::{isqrt, sat, square_root, Fixed};

verus! {

/// A vector in the plane.
#[derive(Clone, Copy, Debug, PartialEq, Eq, Structural)]
pub struct Vec2 {
    pub x: Fixed,
    pub y: Fixed,
}

/// A vector in space.
#[derive(Clone, Copy, Debug, PartialEq, Eq, Structural)]
pub struct Vec3 {
    pub x: Fixed,
    pub y: Fixed,
    pub z: Fixed,
}

fn magnitude(raw: i64) -> (m: u128)
    ensures
        m == if raw < 0 { -(raw as int) } else { raw as int },
        m <= 0x8000_0000_0000_0000,
{
    if raw < 0 {
        (-(raw as i128)) as u128
    } else {
        raw as u128
    }
}

fn squared(raw: i64) -> (m: u128)
    ensures
        m == raw * raw,
        m <= 0x4000_0000_0000_0000_0000_0000_0000_0000,
{
    let a: u128 = magnitude(raw);
    assert(a * a == raw * raw && a * a <= 0x4000_0000_0000_0000_0000_0000_0000_0000)
        by (nonlinear_arith)
        requires
            a == raw || a == -raw,
            0 <= a <= 0x8000_0000_0000_0000,
    ;
    a * a
}

fn root_fixed(n: u128) -> (r: Fixed)
    ensures
        r.raw == sat(isqrt(n as nat) as int),
{
    let root: u64 = square_root(n);
    if root > i64::MAX as u64 {
        Fixed { raw: i64::MAX }
    } else {
        Fixed { raw: root as i64 }
    }
}

impl Vec2 {
    pub open spec fn spec_new(x: Fixed, y: Fixed) -> Vec2 {
        Vec2 { x, y }
    }

    #[verifier::when_used_as_spec(spec_new)]
    pub fn new(x: Fixed, y: Fixed) -> (r: Vec2)
        ensures
            r == Vec2::spec_new(x, y),
    {
        Vec2 { x, y }
    }

    pub open spec fn spec_length(self) -> Fixed {
        Fixed { raw: sat(isqrt((self.x.raw * self.x.raw + self.y.raw * self.y.raw) as nat) as int) as i64 }
    }

    /// Euclidean length, rounded down and saturated.
    #[verifier::when_used_as_spec(spec_length)]
    pub fn length(self) -> (r: Fixed)
        ensures
            r == self.spec_length(),
    {
        root_fixed(squared(self.x.raw) + squared(self.y.raw))
    }

    pub open spec fn spec_unit(self) -> Vec2 {
        if self.x.raw == 0 && self.y.raw == 0 {
            self
        } else {
            Vec2 {
                x: self.x.spec_divided_by(self.spec_length()),
                y: self.y.spec_divided_by(self.spec_length()),
            }
        }
    }

    /// The vector of the same direction and length one; the zero vector is left as it is.
    #[verifier::when_used_as_spec(spec_unit)]
    pub fn unit(self) -> (r: Vec2)
        ensures
            r == self.spec_unit(),
    {
        if self.x.raw == 0 && self.y.raw == 0 {
            return self;
        }
        let len: Fixed = self.length();
        proof {
            lemma_length_positive(self);
        }
        Vec2 { x: self.x.divided_by(len), y: self.y.divided_by(len) }
    }
}

/// A vector other than zero has a length of at least one raw unit.
pub proof fn lemma_length_positive(v: Vec2)
    requires
        v.x.raw != 0 || v.y.raw != 0,
    ensures
        v.spec_length().raw >= 1,
{
    let n: int = v.x.raw * v.x.raw + v.y.raw * v.y.raw;
    assert(n >= 1) by (nonlinear_arith)
        requires
            n == v.x.raw * v.x.raw + v.y.raw * v.y.raw,
            v.x.raw != 0 || v.y.raw != 0,
    ;
    let r = crate::fixed::square_root_witness(n as nat);
    assert(r >= 1) by (nonlinear_arith)
        requires
            r * r <= n < (r + 1) * (r + 1),
            n >= 1,
            r >= 0,
    ;
}

impl Vec3 {
    pub open spec fn spec_new(x: Fixed, y: Fixed, z: Fixed) -> Vec3 {
        Vec3 { x, y, z }
    }

    #[verifier::when_used_as_spec(spec_new)]
    pub fn new(x: Fixed, y: Fixed, z: Fixed) -> (r: Vec3)
        ensures
            r == Vec3::spec_new(x, y, z),
    {
        Vec3 { x, y, z }
    }

    pub open spec fn spec_zero() -> Vec3 {
        Vec3 { x: Fixed { raw: 0 }, y: Fixed { raw: 0 }, z: Fixed { raw: 0 } }
    }

    #[verifier::when_used_as_spec(spec_zero)]
    pub fn zero() -> (r: Vec3)
        ensures
            r == Vec3::spec_zero(),
    {
        Vec3 { x: Fixed { raw: 0 }, y: Fixed { raw: 0 }, z: Fixed { raw: 0 } }
    }

    pub open spec fn spec_plus(self, rhs: Vec3) -> Vec3 {
        Vec3 { x: self.x.spec_plus(rhs.x), y: self.y.spec_plus(rhs.y), z: self.z.spec_plus(rhs.z) }
    }

    /// Component-wise saturating sum.
    #[verifier::when_used_as_spec(spec_plus)]
    pub fn plus(self, rhs: Vec3) -> (r: Vec3)
        ensures
            r == self.spec_plus(rhs),
    {
        Vec3 { x: self.x.plus(rhs.x), y: self.y.plus(rhs.y), z: self.z.plus(rhs.z) }
    }

    pub open spec fn spec_minus(self, rhs: Vec3) -> Vec3 {
        Vec3 {
            x: self.x.spec_minus(rhs.x),
            y: self.y.spec_minus(rhs.y),
            z: self.z.spec_minus(rhs.z),
        }
    }

    /// Component-wise saturating difference.
    #[verifier::when_used_as_spec(spec_minus)]
    pub fn minus(self, rhs: Vec3) -> (r: Vec3)
        ensures
            r == self.spec_minus(rhs),
    {
        Vec3 { x: self.x.minus(rhs.x), y: self.y.minus(rhs.y), z: self.z.minus(rhs.z) }
    }

    pub open spec fn spec_scaled(self, k: Fixed) -> Vec3 {
        Vec3 { x: self.x.spec_times(k), y: self.y.spec_times(k), z: self.z.spec_times(k) }
    }

    /// Every component multiplied by `k`.
    #[verifier::when_used_as_spec(spec_scaled)]
    pub fn scaled(self, k: Fixed) -> (r: Vec3)
        ensures
            r == self.spec_scaled(k),
    {
        Vec3 { x: self.x.times(k), y: self.y.times(k), z: self.z.times(k) }
    }

    pub open spec fn spec_shrunk(self, k: Fixed) -> Vec3 {
        Vec3 {
            x: self.x.spec_divided_by(k),
            y: self.y.spec_divided_by(k),
            z: self.z.spec_divided_by(k),
        }
    }

    /// Every component divided by a `k` other than zero.
    #[verifier::when_used_as_spec(spec_shrunk)]
    pub fn shrunk(self, k: Fixed) -> (r: Vec3)
        requires
            k.raw != 0,
        ensures
            r == self.spec_shrunk(k),
    {
        Vec3 { x: self.x.divided_by(k), y: self.y.divided_by(k), z: self.z.divided_by(k) }
    }

    pub open spec fn spec_length(self) -> Fixed {
        Fixed {
            raw: sat(
                isqrt(
                    (self.x.raw * self.x.raw + self.y.raw * self.y.raw + self.z.raw
                        * self.z.raw) as nat,
                ) as int,
            ) as i64,
        }
    }

    /// Euclidean length, rounded down and saturated.
    #[verifier::when_used_as_spec(spec_length)]
    pub fn length(self) -> (r: Fixed)
        ensures
            r == self.spec_length(),
    {
        root_fixed(squared(self.x.raw) + squared(self.y.raw) + squared(self.z.raw))
    }

    pub open spec fn spec_lerp(self, goal: Vec3, t: Fixed) -> Vec3 {
        self.spec_plus(goal.spec_minus(self).spec_scaled(t))
    }

    /// The point reached from `self` after the share `t` of the way to `goal`.
    #[verifier::when_used_as_spec(spec_lerp)]
    pub fn lerp(self, goal: Vec3, t: Fixed) -> (r: Vec3)
        ensures
            r == self.spec_lerp(goal, t),
    {
        self.plus(goal.minus(self).scaled(t))
    }
}

} // verus!
