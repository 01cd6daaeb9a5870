//! Construction of fresh matrix values.

use vstd::prelude::*;

use crate::model::identity_seq;
use crate::model::zero_seq;
use crate::scalar::Scalar;

verus! {

/// A fresh matrix of the 16 given elements, row-major call order written
/// into column-major storage: `mRC` becomes the element at (row `R - 1`,
/// column `C - 1`).
pub fn new<T: Scalar>(
    m11: T, m12: T, m13: T, m14: T,
    m21: T, m22: T, m23: T, m24: T,
    m31: T, m32: T, m33: T, m34: T,
    m41: T, m42: T, m43: T, m44: T,
) -> (r: [T; 16])
    ensures
        r@ == seq![
            m11, m21, m31, m41,
            m12, m22, m32, m42,
            m13, m23, m33, m43,
            m14, m24, m34, m44,
        ],
{
    let r: [T; 16] = [
        m11, m21, m31, m41,
        m12, m22, m32, m42,
        m13, m23, m33, m43,
        m14, m24, m34, m44,
    ];
    proof {
        assert(r@ =~= seq![
            m11, m21, m31, m41,
            m12, m22, m32, m42,
            m13, m23, m33, m43,
            m14, m24, m34, m44,
        ]);
    }
    r
}

/// Same as [`new`]: a fresh matrix of the 16 given elements, row-major call
/// order written into column-major storage.
pub fn create<T: Scalar>(
    m11: T, m12: T, m13: T, m14: T,
    m21: T, m22: T, m23: T, m24: T,
    m31: T, m32: T, m33: T, m34: T,
    m41: T, m42: T, m43: T, m44: T,
) -> (r: [T; 16])
    ensures
        r@ == seq![
            m11, m21, m31, m41,
            m12, m22, m32, m42,
            m13, m23, m33, m43,
            m14, m24, m34, m44,
        ],
{
    new(
        m11, m12, m13, m14,
        m21, m22, m23, m24,
        m31, m32, m33, m34,
        m41, m42, m43, m44,
    )
}

/// A fresh identity matrix.
pub fn new_identity<T: Scalar>() -> (r: [T; 16])
    ensures
        r@ == identity_seq::<T>(),
{
    let o: T = T::one();
    let z: T = T::zero();
    let r = new(
        o, z, z, z,
        z, o, z, z,
        z, z, o, z,
        z, z, z, o,
    );
    proof {
        assert(r@ =~= identity_seq::<T>());
    }
    r
}

/// A fresh zero matrix.
pub fn new_zero<T: Scalar>() -> (r: [T; 16])
    ensures
        r@ == zero_seq::<T>(),
{
    let z: T = T::zero();
    let r = new(
        z, z, z, z,
        z, z, z, z,
        z, z, z, z,
        z, z, z, z,
    );
    proof {
        assert(r@ =~= zero_seq::<T>());
    }
    r
}

/// A fresh element-wise copy of `m`: the rows of `m` are read out and
/// handed to [`new`] in row-major call order.
pub fn clone<T: Scalar>(m: &[T; 16]) -> (r: [T; 16])
    ensures
        r@ == m@,
{
    let r = new(
        m[0], m[4], m[8], m[12],
        m[1], m[5], m[9], m[13],
        m[2], m[6], m[10], m[14],
        m[3], m[7], m[11], m[15],
    );
    proof {
        assert(r@ =~= m@);
    }
    r
}

/// Copies every element of `a` into `out`.
pub fn copy<'a, T: Scalar>(out: &'a mut [T; 16], a: &[T; 16]) -> (r: &'a mut [T; 16])
    ensures
        r@ == a@,
        final(out)@ == final(r)@,
{
    out[0] = a[0];
    out[1] = a[1];
    out[2] = a[2];
    out[3] = a[3];
    out[4] = a[4];
    out[5] = a[5];
    out[6] = a[6];
    out[7] = a[7];
    out[8] = a[8];
    out[9] = a[9];
    out[10] = a[10];
    out[11] = a[11];
    out[12] = a[12];
    out[13] = a[13];
    out[14] = a[14];
    out[15] = a[15];
    proof {
        assert(out@ =~= a@);
    }
    out
}

} // verus!
