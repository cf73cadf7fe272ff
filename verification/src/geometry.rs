//! Plain values that are carried from the pose to the GPU unchanged.

use vstd::prelude::*;

verus! {

/// The bit pattern of a 32-bit floating-point number.
///
/// The pipeline copies scalars; it never does arithmetic on them, so two
/// runs over the same pose give the same bits.
#[derive(Clone, Copy, Debug, PartialEq, Eq, Structural)]
pub struct Scalar {
    pub bits: u32,
}

impl Scalar {
    /// The pattern of `0.0`.
    pub open spec fn zero_spec() -> Scalar {
        Scalar { bits: 0 }
    }

    /// The pattern of `1.0`.
    pub open spec fn one_spec() -> Scalar {
        Scalar { bits: 0x3F80_0000 }
    }

    /// The pattern of `0.0`.
    #[verifier::when_used_as_spec(zero_spec)]
    pub fn zero() -> (s: Scalar)
        ensures
            s == Scalar::zero_spec(),
    {
        Scalar { bits: 0 }
    }

    /// The pattern of `1.0`.
    #[verifier::when_used_as_spec(one_spec)]
    pub fn one() -> (s: Scalar)
        ensures
            s == Scalar::one_spec(),
    {
        Scalar { bits: 0x3F80_0000 }
    }

    /// The scalar with the given pattern.
    pub fn from_bits(bits: u32) -> (s: Scalar)
        ensures
            s.bits == bits,
    {
        Scalar { bits }
    }

    /// The pattern of the scalar.
    pub fn to_bits(self) -> (bits: u32)
        ensures
            bits == self.bits,
    {
        self.bits
    }
}

/// A position or a texture coordinate.
#[derive(Clone, Copy, Debug, PartialEq, Eq, Structural)]
pub struct Point {
    pub x: Scalar,
    pub y: Scalar,
}

impl Point {
    /// The point `(0.0, 0.0)`.
    pub open spec fn origin_spec() -> Point {
        Point { x: Scalar::zero_spec(), y: Scalar::zero_spec() }
    }

    /// The point `(0.0, 0.0)`.
    #[verifier::when_used_as_spec(origin_spec)]
    pub fn origin() -> (p: Point)
        ensures
            p == Point::origin_spec(),
    {
        Point { x: Scalar::zero(), y: Scalar::zero() }
    }
}

/// An RGBA colour.
#[derive(Clone, Copy, Debug, PartialEq, Eq, Structural)]
pub struct Color {
    pub r: Scalar,
    pub g: Scalar,
    pub b: Scalar,
    pub a: Scalar,
}

/// A 4x4 matrix, stored column by column.
#[derive(Clone, Copy, Debug, PartialEq, Eq)]
pub struct Matrix4 {
    pub cells: [Scalar; 16],
}

impl Matrix4 {
    /// The matrix that maps every point to itself.
    pub open spec fn identity_spec() -> Matrix4 {
        let o = Scalar::zero_spec();
        let i = Scalar::one_spec();
        Matrix4 { cells: [i, o, o, o, o, i, o, o, o, o, i, o, o, o, o, i] }
    }

    /// The 2D affine map `(x, y) -> (a*x + b*y + tx, c*x + d*y + ty)` as a
    /// 4x4 matrix that leaves `z` and `w` alone.
    pub open spec fn from_affine_spec(
        a: Scalar,
        b: Scalar,
        c: Scalar,
        d: Scalar,
        tx: Scalar,
        ty: Scalar,
    ) -> Matrix4 {
        let o = Scalar::zero_spec();
        let i = Scalar::one_spec();
        Matrix4 { cells: [a, c, o, o, b, d, o, o, o, o, i, o, tx, ty, o, i] }
    }

    /// The matrix that maps every point to itself.
    #[verifier::when_used_as_spec(identity_spec)]
    pub fn identity() -> (m: Matrix4)
        ensures
            m == Matrix4::identity_spec(),
    {
        let o = Scalar::zero();
        let i = Scalar::one();
        Matrix4 { cells: [i, o, o, o, o, i, o, o, o, o, i, o, o, o, o, i] }
    }

    /// The 2D affine map `(x, y) -> (a*x + b*y + tx, c*x + d*y + ty)` as a
    /// 4x4 matrix that leaves `z` and `w` alone.
    #[verifier::when_used_as_spec(from_affine_spec)]
    pub fn from_affine(a: Scalar, b: Scalar, c: Scalar, d: Scalar, tx: Scalar, ty: Scalar) -> (m:
        Matrix4)
        ensures
            m == Matrix4::from_affine_spec(a, b, c, d, tx, ty),
    {
        let o = Scalar::zero();
        let i = Scalar::one();
        Matrix4 { cells: [a, c, o, o, b, d, o, o, o, o, i, o, tx, ty, o, i] }
    }
}

} // verus!
