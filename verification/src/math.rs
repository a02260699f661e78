//! Integer vectors and saturating arithmetic.
use vstd::prelude::*;

verus! {

/// The value of the `i64` range nearest to `x`.
pub open spec fn clamp_i64(x: int) -> int {
    if x < i64::MIN as int {
        i64::MIN as int
    } else if x > i64::MAX as int {
        i64::MAX as int
    } else {
        x
    }
}

/// Narrows a wide integer to `i64`, stopping at the ends of the range.
pub fn saturate(x: i128) -> (r: i64)
    ensures
        r as int == clamp_i64(x as int),
{
    if x < i64::MIN as i128 {
        i64::MIN
    } else if x > i64::MAX as i128 {
        i64::MAX
    } else {
        x as i64
    }
}

/// `a + b`, stopping at the ends of the `i64` range.
pub fn add_saturating(a: i64, b: i64) -> (r: i64)
    ensures
        r as int == clamp_i64(a + b),
{
    saturate(a as i128 + b as i128)
}

/// `a - b`, stopping at the ends of the `i64` range.
pub fn sub_saturating(a: i64, b: i64) -> (r: i64)
    ensures
        r as int == clamp_i64(a - b),
{
    saturate(a as i128 - b as i128)
}

/// `a + b * c`, stopping at the ends of the `i64` range.
pub fn mul_add_saturating(a: i64, b: i64, c: i64) -> (r: i64)
    ensures
        r as int == clamp_i64(a + b * c),
{
    proof {
        lemma_product_bound(b as int, c as int);
    }
    let product: i128 = (b as i128) * (c as i128);
    saturate(a as i128 + product)
}

/// The product of two `i64` values stays well inside the `i128` range.
proof fn lemma_product_bound(b: int, c: int)
    requires
        i64::MIN <= b <= i64::MAX,
        i64::MIN <= c <= i64::MAX,
    ensures
        -0x4000_0000_0000_0000_0000_0000_0000_0000 <= b * c
            <= 0x4000_0000_0000_0000_0000_0000_0000_0000,
{
    assert(-0x4000_0000_0000_0000_0000_0000_0000_0000 <= b * c
        <= 0x4000_0000_0000_0000_0000_0000_0000_0000) by (nonlinear_arith)
        requires
            -0x8000_0000_0000_0000 <= b <= 0x8000_0000_0000_0000,
            -0x8000_0000_0000_0000 <= c <= 0x8000_0000_0000_0000,
    ;
}

/// A point or an extent in the plane.
#[derive(Clone, Copy, Debug, PartialEq, Eq, Structural)]
pub struct Vec2 {
    pub x: i64,
    pub y: i64,
}

impl Vec2 {
    pub fn new(x: i64, y: i64) -> (v: Vec2)
        ensures
            v == (Vec2 { x, y }),
    {
        Vec2 { x, y }
    }
}

/// A position in the plane with a drawing layer `z`.
#[derive(Clone, Copy, Debug, PartialEq, Eq, Structural)]
pub struct Vec3 {
    pub x: i64,
    pub y: i64,
    pub z: i64,
}

impl Vec3 {
    /// The origin.
    pub open spec fn zero() -> Vec3 {
        Vec3 { x: 0, y: 0, z: 0 }
    }

    /// Component-wise saturating sum.
    pub open spec fn plus(self, other: Vec3) -> Vec3 {
        Vec3 {
            x: clamp_i64(self.x + other.x) as i64,
            y: clamp_i64(self.y + other.y) as i64,
            z: clamp_i64(self.z + other.z) as i64,
        }
    }

    pub fn new(x: i64, y: i64, z: i64) -> (v: Vec3)
        ensures
            v == (Vec3 { x, y, z }),
    {
        Vec3 { x, y, z }
    }

    /// Component-wise sum, each component stopping at the ends of the range.
    pub fn add_saturating(self, other: Vec3) -> (v: Vec3)
        ensures
            v == self.plus(other),
    {
        Vec3 {
            x: add_saturating(self.x, other.x),
            y: add_saturating(self.y, other.y),
            z: add_saturating(self.z, other.z),
        }
    }
}

} // verus!
