//! Points and symmetry operations as plain bit patterns.
//!
//! Every number is held as the bit pattern of an IEEE-754 binary64 value. The
//! library compares, orders and stores these patterns; it never does
//! arithmetic on them.

use crate::symmetry::key::decode;
use vstd::prelude::*;

verus! {

/// The bit pattern of the number zero.
pub const ZERO: u64 = 0;

/// The bit pattern of the number one.
pub const ONE: u64 = 0x3ff0_0000_0000_0000;

/// A point in fractional (unit-cell) coordinates.
#[derive(Clone, Copy, Debug, PartialEq, Eq, Structural)]
pub struct Point3 {
    pub x: u64,
    pub y: u64,
    pub z: u64,
}

/// A column of a 4 x 4 matrix.
#[derive(Clone, Copy, Debug, PartialEq, Eq, Structural)]
pub struct Vector4 {
    pub x: u64,
    pub y: u64,
    pub z: u64,
    pub w: u64,
}

/// An affine symmetry operation: a 4 x 4 matrix in column-major order, `x`,
/// `y`, `z` and `w` being its four columns. The upper left 3 x 3 block is the
/// rotation or reflection, the upper three entries of `w` are the
/// translation, and the last row is that of a homogeneous transformation.
#[derive(Clone, Copy, Debug, PartialEq, Eq, Structural)]
pub struct Matrix4 {
    pub x: Vector4,
    pub y: Vector4,
    pub z: Vector4,
    pub w: Vector4,
}

impl Point3 {
    /// The point with the given coordinates.
    pub fn new(x: u64, y: u64, z: u64) -> (point: Point3)
        ensures
            point == (Point3 { x, y, z }),
    {
        Point3 { x, y, z }
    }
}

/// The operation that shifts a point by `(x, y, z)` and does nothing else.
pub open spec fn translation(x: u64, y: u64, z: u64) -> Matrix4 {
    Matrix4 {
        x: Vector4 { x: ONE, y: ZERO, z: ZERO, w: ZERO },
        y: Vector4 { x: ZERO, y: ONE, z: ZERO, w: ZERO },
        z: Vector4 { x: ZERO, y: ZERO, z: ONE, w: ZERO },
        w: Vector4 { x, y, z, w: ONE },
    }
}

/// The eight trivial lattice translations: every combination of a shift by
/// zero or by one unit cell along `x`, `y` and `z`. The first is the
/// identity, and the next three are the unit translations along `x`, along
/// `y` and along `z`.
pub open spec fn trivial_translation_list() -> Seq<Matrix4> {
    seq![
        translation(ZERO, ZERO, ZERO),
        translation(ONE, ZERO, ZERO),
        translation(ZERO, ONE, ZERO),
        translation(ZERO, ZERO, ONE),
        translation(ONE, ONE, ZERO),
        translation(ZERO, ONE, ONE),
        translation(ONE, ZERO, ONE),
        translation(ONE, ONE, ONE),
    ]
}

impl Matrix4 {
    /// The operation that shifts a point by `(x, y, z)`.
    pub fn from_translation(x: u64, y: u64, z: u64) -> (operation: Matrix4)
        ensures
            operation == translation(x, y, z),
    {
        Matrix4 {
            x: Vector4 { x: ONE, y: ZERO, z: ZERO, w: ZERO },
            y: Vector4 { x: ZERO, y: ONE, z: ZERO, w: ZERO },
            z: Vector4 { x: ZERO, y: ZERO, z: ONE, w: ZERO },
            w: Vector4 { x, y, z, w: ONE },
        }
    }

    /// The operation that leaves every point where it is.
    pub fn identity() -> (operation: Matrix4)
        ensures
            operation == translation(ZERO, ZERO, ZERO),
    {
        Matrix4::from_translation(ZERO, ZERO, ZERO)
    }
}

/// The eight trivial lattice translations, in the order of
/// `trivial_translation_list`.
pub fn trivial_translations() -> (list: Vec<Matrix4>)
    ensures
        list@ == trivial_translation_list(),
{
    let mut list: Vec<Matrix4> = Vec::new();
    list.push(Matrix4::from_translation(ZERO, ZERO, ZERO));
    list.push(Matrix4::from_translation(ONE, ZERO, ZERO));
    list.push(Matrix4::from_translation(ZERO, ONE, ZERO));
    list.push(Matrix4::from_translation(ZERO, ZERO, ONE));
    list.push(Matrix4::from_translation(ONE, ONE, ZERO));
    list.push(Matrix4::from_translation(ZERO, ONE, ONE));
    list.push(Matrix4::from_translation(ONE, ZERO, ONE));
    list.push(Matrix4::from_translation(ONE, ONE, ONE));
    assert(list@ =~= trivial_translation_list());
    list
}

/// `ZERO` and `ONE` are the patterns of zero and of one: the key of `ZERO`
/// has the mantissa 0, and the key of `ONE` has the mantissa 2^52 with the
/// exponent -52; both have the sign 1.
pub proof fn lemma_zero_and_one()
    ensures
        decode(ZERO) == (0u64, -1075i16, 1i8),
        decode(ONE) == (0x10_0000_0000_0000u64, -52i16, 1i8),
{
}

} // verus!
