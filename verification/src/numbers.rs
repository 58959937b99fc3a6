//! The numbers that annotations carry.
//!
//! The recorder moves single-precision numbers from the producer to the
//! exported columns; it never computes with them. A number is therefore held
//! as its IEEE 754 bit pattern, and every contract in this crate speaks of
//! those patterns: what comes out is, bit for bit, what went in.

use vstd::prelude::*;

verus! {

/// One single-precision number, held as its IEEE 754 bit pattern.
///
/// `==` compares the patterns: two NaN values with the same payload are equal
/// here, and the two zeros are not.
#[derive(Clone, Copy, Debug, PartialEq, Eq, Structural)]
pub struct Scalar {
    pub bits: u32,
}

impl Scalar {
    /// The number with the given bit pattern.
    pub fn from_bits(bits: u32) -> (s: Scalar)
        ensures
            s.bits == bits,
    {
        Scalar { bits }
    }

    /// The bit pattern of the number.
    pub fn to_bits(self) -> (bits: u32)
        ensures
            bits == self.bits,
    {
        self.bits
    }

    /// Positive zero, whose pattern is all zero bits.
    pub open spec fn spec_zero() -> Scalar {
        Scalar { bits: 0 }
    }

    /// Positive zero.
    #[verifier::when_used_as_spec(spec_zero)]
    pub fn zero() -> (s: Scalar)
        ensures
            s == Scalar::spec_zero(),
    {
        Scalar { bits: 0 }
    }
}

/// A point or direction in space.
#[derive(Clone, Copy, Debug, PartialEq, Eq, Structural)]
pub struct Vec3 {
    pub x: Scalar,
    pub y: Scalar,
    pub z: Scalar,
}

impl Vec3 {
    pub fn new(x: Scalar, y: Scalar, z: Scalar) -> (v: Vec3)
        ensures
            v == (Vec3 { x, y, z }),
    {
        Vec3 { x, y, z }
    }

    /// The origin: three positive zeros.
    pub open spec fn spec_zero() -> Vec3 {
        Vec3 { x: Scalar::spec_zero(), y: Scalar::spec_zero(), z: Scalar::spec_zero() }
    }

    /// The origin.
    #[verifier::when_used_as_spec(spec_zero)]
    pub fn zero() -> (v: Vec3)
        ensures
            v == Vec3::spec_zero(),
    {
        Vec3 { x: Scalar::zero(), y: Scalar::zero(), z: Scalar::zero() }
    }

    /// The coordinates in the order x, y, z.
    pub open spec fn coordinates(self) -> Seq<Scalar> {
        seq![self.x, self.y, self.z]
    }

    /// The coordinates in the order x, y, z.
    pub fn to_array(self) -> (a: [Scalar; 3])
        ensures
            a@ == self.coordinates(),
    {
        [self.x, self.y, self.z]
    }
}

/// Four numbers: one column of a transform.
#[derive(Clone, Copy, Debug, PartialEq, Eq, Structural)]
pub struct Vec4 {
    pub x: Scalar,
    pub y: Scalar,
    pub z: Scalar,
    pub w: Scalar,
}

impl Vec4 {
    pub fn new(x: Scalar, y: Scalar, z: Scalar, w: Scalar) -> (v: Vec4)
        ensures
            v == (Vec4 { x, y, z, w }),
    {
        Vec4 { x, y, z, w }
    }

    /// The first three components.
    pub open spec fn spec_truncate(self) -> Vec3 {
        Vec3 { x: self.x, y: self.y, z: self.z }
    }

    /// The first three components; `w` is dropped.
    #[verifier::when_used_as_spec(spec_truncate)]
    pub fn truncate(self) -> (v: Vec3)
        ensures
            v == self.spec_truncate(),
    {
        Vec3 { x: self.x, y: self.y, z: self.z }
    }

    /// The components in the order x, y, z, w.
    pub open spec fn components(self) -> Seq<Scalar> {
        seq![self.x, self.y, self.z, self.w]
    }
}

/// A rotation, as the four components of a quaternion.
#[derive(Clone, Copy, Debug, PartialEq, Eq, Structural)]
pub struct Quat {
    pub x: Scalar,
    pub y: Scalar,
    pub z: Scalar,
    pub w: Scalar,
}

impl Quat {
    pub fn from_xyzw(x: Scalar, y: Scalar, z: Scalar, w: Scalar) -> (q: Quat)
        ensures
            q == (Quat { x, y, z, w }),
    {
        Quat { x, y, z, w }
    }

    /// The components in the order x, y, z, w.
    pub open spec fn components(self) -> Seq<Scalar> {
        seq![self.x, self.y, self.z, self.w]
    }
}

/// A 4x4 transform, stored as its four columns: the three basis vectors and
/// the translation.
#[derive(Clone, Copy, Debug, PartialEq, Eq, Structural)]
pub struct Mat4 {
    pub x_axis: Vec4,
    pub y_axis: Vec4,
    pub z_axis: Vec4,
    pub w_axis: Vec4,
}

impl Mat4 {
    /// The sixteen numbers column by column: `x_axis`, `y_axis`, `z_axis`,
    /// then `w_axis`, each as x, y, z, w.
    pub open spec fn cols(self) -> Seq<Scalar> {
        self.x_axis.components() + self.y_axis.components() + self.z_axis.components()
            + self.w_axis.components()
    }

    /// The translation: the first three numbers of the last column.
    pub open spec fn translation(self) -> Vec3 {
        self.w_axis.spec_truncate()
    }

    pub fn from_cols(x_axis: Vec4, y_axis: Vec4, z_axis: Vec4, w_axis: Vec4) -> (m: Mat4)
        ensures
            m == (Mat4 { x_axis, y_axis, z_axis, w_axis }),
    {
        Mat4 { x_axis, y_axis, z_axis, w_axis }
    }

    /// The transform whose columns, laid end to end, are `m`.
    pub fn from_cols_array(m: &[Scalar; 16]) -> (t: Mat4)
        ensures
            t.cols() == m@,
    {
        let t = Mat4 {
            x_axis: Vec4 { x: m[0], y: m[1], z: m[2], w: m[3] },
            y_axis: Vec4 { x: m[4], y: m[5], z: m[6], w: m[7] },
            z_axis: Vec4 { x: m[8], y: m[9], z: m[10], w: m[11] },
            w_axis: Vec4 { x: m[12], y: m[13], z: m[14], w: m[15] },
        };
        assert(t.cols() =~= m@);
        t
    }

    /// The sixteen numbers in column-major order.
    pub fn to_cols_array(&self) -> (a: [Scalar; 16])
        ensures
            a@ == self.cols(),
    {
        let a = [
            self.x_axis.x,
            self.x_axis.y,
            self.x_axis.z,
            self.x_axis.w,
            self.y_axis.x,
            self.y_axis.y,
            self.y_axis.z,
            self.y_axis.w,
            self.z_axis.x,
            self.z_axis.y,
            self.z_axis.z,
            self.z_axis.w,
            self.w_axis.x,
            self.w_axis.y,
            self.w_axis.z,
            self.w_axis.w,
        ];
        assert(a@ =~= self.cols());
        a
    }
}

} // verus!
