//! Writing whole matrix values into an existing buffer.

use vstd::prelude::*;

use crate::model::identity_seq;
use crate::model::zero_seq;
use crate::scalar::Scalar;

verus! {

/// Writes the given elements into `out`, row-major call order into
/// column-major storage: `mRC` becomes the element at (row `R - 1`,
/// column `C - 1`).
pub fn set<'a, T: Scalar>(
    out: &'a mut [T; 16],
    m11: T, m12: T, m13: T, m14: T,
    m21: T, m22: T, m23: T, m24: T,
    m31: T, m32: T, m33: T, m34: T,
    m41: T, m42: T, m43: T, m44: T,
) -> (r: &'a mut [T; 16])
    ensures
        r@ == seq![
            m11, m21, m31, m41,
            m12, m22, m32, m42,
            m13, m23, m33, m43,
            m14, m24, m34, m44,
        ],
        final(out)@ == final(r)@,
{
    out[0] = m11;
    out[4] = m12;
    out[8] = m13;
    out[12] = m14;
    out[1] = m21;
    out[5] = m22;
    out[9] = m23;
    out[13] = m24;
    out[2] = m31;
    out[6] = m32;
    out[10] = m33;
    out[14] = m34;
    out[3] = m41;
    out[7] = m42;
    out[11] = m43;
    out[15] = m44;
    proof {
        assert(out@ =~= seq![
            m11, m21, m31, m41,
            m12, m22, m32, m42,
            m13, m23, m33, m43,
            m14, m24, m34, m44,
        ]);
    }
    out
}

/// Overwrites `out` with the zero matrix.
pub fn zero<'a, T: Scalar>(out: &'a mut [T; 16]) -> (r: &'a mut [T; 16])
    ensures
        r@ == zero_seq::<T>(),
        final(out)@ == final(r)@,
{
    let z: T = T::zero();
    let r = set(out,
        z, z, z, z,
        z, z, z, z,
        z, z, z, z,
        z, z, z, z,
    );
    proof {
        assert(r@ =~= zero_seq::<T>());
    }
    r
}

/// Overwrites `out` with the identity matrix.
pub fn identity<'a, T: Scalar>(out: &'a mut [T; 16]) -> (r: &'a mut [T; 16])
    ensures
        r@ == identity_seq::<T>(),
        final(out)@ == final(r)@,
{
    let o: T = T::one();
    let z: T = T::zero();
    let r = set(out,
        o, z, z, z,
        z, o, z, z,
        z, z, o, z,
        z, z, z, o,
    );
    proof {
        assert(r@ =~= identity_seq::<T>());
    }
    r
}

/// Embeds a 2x2 column-major matrix into the top-left block of `out`,
/// identity elsewhere.
pub fn from_mat2<'a, T: Scalar>(out: &'a mut [T; 16], m: &[T; 4]) -> (r: &'a mut [T; 16])
    ensures
        r@ == seq![
            m@[0], m@[1], T::spec_zero(), T::spec_zero(),
            m@[2], m@[3], T::spec_zero(), T::spec_zero(),
            T::spec_zero(), T::spec_zero(), T::spec_one(), T::spec_zero(),
            T::spec_zero(), T::spec_zero(), T::spec_zero(), T::spec_one(),
        ],
        final(out)@ == final(r)@,
{
    let o: T = T::one();
    let z: T = T::zero();
    set(out,
        m[0], m[2], z, z,
        m[1], m[3], z, z,
        z, z, o, z,
        z, z, z, o,
    )
}

/// Embeds a 3x2 column-major affine matrix into `out`: linear part in the
/// top-left 2x2 block, last two elements into the translation column,
/// identity elsewhere.
pub fn from_mat32<'a, T: Scalar>(out: &'a mut [T; 16], m: &[T; 6]) -> (r: &'a mut [T; 16])
    ensures
        r@ == seq![
            m@[0], m@[1], T::spec_zero(), T::spec_zero(),
            m@[2], m@[3], T::spec_zero(), T::spec_zero(),
            T::spec_zero(), T::spec_zero(), T::spec_one(), T::spec_zero(),
            m@[4], m@[5], T::spec_zero(), T::spec_one(),
        ],
        final(out)@ == final(r)@,
{
    let o: T = T::one();
    let z: T = T::zero();
    set(out,
        m[0], m[2], z, m[4],
        m[1], m[3], z, m[5],
        z, z, o, z,
        z, z, z, o,
    )
}

/// Embeds a 3x3 column-major matrix into the top-left block of `out`,
/// identity elsewhere.
pub fn from_mat3<'a, T: Scalar>(out: &'a mut [T; 16], m: &[T; 9]) -> (r: &'a mut [T; 16])
    ensures
        r@ == seq![
            m@[0], m@[1], m@[2], T::spec_zero(),
            m@[3], m@[4], m@[5], T::spec_zero(),
            m@[6], m@[7], m@[8], T::spec_zero(),
            T::spec_zero(), T::spec_zero(), T::spec_zero(), T::spec_one(),
        ],
        final(out)@ == final(r)@,
{
    let o: T = T::one();
    let z: T = T::zero();
    set(out,
        m[0], m[3], m[6], z,
        m[1], m[4], m[7], z,
        m[2], m[5], m[8], z,
        z, z, z, o,
    )
}

} // verus!
