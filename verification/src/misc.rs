//! Structural operations: inverse, determinant, transpose, approximate
//! equality.

use vstd::prelude::*;

use crate::model::approx_eq_seq;
use crate::model::det_seq;
use crate::model::identity_seq;
use crate::model::inverse_seq;
use crate::model::transpose_seq;
use crate::scalar::Scalar;
use crate::set::identity;

verus! {

/// The inverse of `a`, by cofactor expansion: the adjugate divided by the
/// determinant.  When the determinant is exactly the additive identity the
/// result is the identity matrix — a deliberate degenerate-input policy, not
/// an error path; the zero test is exact, with no epsilon tolerance.
pub fn inverse<'a, T: Scalar>(out: &'a mut [T; 16], a: &[T; 16]) -> (r: &'a mut [T; 16])
    ensures
        r@ == inverse_seq(a@),
        det_seq(a@).spec_is_zero() ==> r@ == identity_seq::<T>(),
        final(out)@ == final(r)@,
{
    let a00 = a[0];
    let a01 = a[1];
    let a02 = a[2];
    let a03 = a[3];
    let a10 = a[4];
    let a11 = a[5];
    let a12 = a[6];
    let a13 = a[7];
    let a20 = a[8];
    let a21 = a[9];
    let a22 = a[10];
    let a23 = a[11];
    let a30 = a[12];
    let a31 = a[13];
    let a32 = a[14];
    let a33 = a[15];

    let b00 = a00.mul(a11).sub(a01.mul(a10));
    let b01 = a00.mul(a12).sub(a02.mul(a10));
    let b02 = a00.mul(a13).sub(a03.mul(a10));
    let b03 = a01.mul(a12).sub(a02.mul(a11));
    let b04 = a01.mul(a13).sub(a03.mul(a11));
    let b05 = a02.mul(a13).sub(a03.mul(a12));
    let b06 = a20.mul(a31).sub(a21.mul(a30));
    let b07 = a20.mul(a32).sub(a22.mul(a30));
    let b08 = a20.mul(a33).sub(a23.mul(a30));
    let b09 = a21.mul(a32).sub(a22.mul(a31));
    let b10 = a21.mul(a33).sub(a23.mul(a31));
    let b11 = a22.mul(a33).sub(a23.mul(a32));

    let d = b00.mul(b11).sub(b01.mul(b10)).add(b02.mul(b09)).add(b03.mul(b08)).sub(
        b04.mul(b07),
    ).add(b05.mul(b06));

    if !d.is_zero() {
        let inv_d = T::one().div(d);

        out[0] = a11.mul(b11).sub(a12.mul(b10)).add(a13.mul(b09)).mul(inv_d);
        out[1] = a02.mul(b10).sub(a01.mul(b11)).sub(a03.mul(b09)).mul(inv_d);
        out[2] = a31.mul(b05).sub(a32.mul(b04)).add(a33.mul(b03)).mul(inv_d);
        out[3] = a22.mul(b04).sub(a21.mul(b05)).sub(a23.mul(b03)).mul(inv_d);
        out[4] = a12.mul(b08).sub(a10.mul(b11)).sub(a13.mul(b07)).mul(inv_d);
        out[5] = a00.mul(b11).sub(a02.mul(b08)).add(a03.mul(b07)).mul(inv_d);
        out[6] = a32.mul(b02).sub(a30.mul(b05)).sub(a33.mul(b01)).mul(inv_d);
        out[7] = a20.mul(b05).sub(a22.mul(b02)).add(a23.mul(b01)).mul(inv_d);
        out[8] = a10.mul(b10).sub(a11.mul(b08)).add(a13.mul(b06)).mul(inv_d);
        out[9] = a01.mul(b08).sub(a00.mul(b10)).sub(a03.mul(b06)).mul(inv_d);
        out[10] = a30.mul(b04).sub(a31.mul(b02)).add(a33.mul(b00)).mul(inv_d);
        out[11] = a21.mul(b02).sub(a20.mul(b04)).sub(a23.mul(b00)).mul(inv_d);
        out[12] = a11.mul(b07).sub(a10.mul(b09)).sub(a12.mul(b06)).mul(inv_d);
        out[13] = a00.mul(b09).sub(a01.mul(b07)).add(a02.mul(b06)).mul(inv_d);
        out[14] = a31.mul(b01).sub(a30.mul(b03)).sub(a32.mul(b00)).mul(inv_d);
        out[15] = a20.mul(b03).sub(a21.mul(b01)).add(a22.mul(b00)).mul(inv_d);
        proof {
            assert(out@ =~= inverse_seq(a@));
        }
        out
    } else {
        identity(out)
    }
}

/// The determinant of `a`, via the six 2x2 minors of the first and last
/// column pairs — the same factoring that [`inverse`] reuses.
pub fn determinant<T: Scalar>(out: &[T; 16]) -> (r: T)
    ensures
        r == det_seq(out@),
{
    let a00 = out[0];
    let a01 = out[1];
    let a02 = out[2];
    let a03 = out[3];
    let a10 = out[4];
    let a11 = out[5];
    let a12 = out[6];
    let a13 = out[7];
    let a20 = out[8];
    let a21 = out[9];
    let a22 = out[10];
    let a23 = out[11];
    let a30 = out[12];
    let a31 = out[13];
    let a32 = out[14];
    let a33 = out[15];

    let b00 = a00.mul(a11).sub(a01.mul(a10));
    let b01 = a00.mul(a12).sub(a02.mul(a10));
    let b02 = a00.mul(a13).sub(a03.mul(a10));
    let b03 = a01.mul(a12).sub(a02.mul(a11));
    let b04 = a01.mul(a13).sub(a03.mul(a11));
    let b05 = a02.mul(a13).sub(a03.mul(a12));
    let b06 = a20.mul(a31).sub(a21.mul(a30));
    let b07 = a20.mul(a32).sub(a22.mul(a30));
    let b08 = a20.mul(a33).sub(a23.mul(a30));
    let b09 = a21.mul(a32).sub(a22.mul(a31));
    let b10 = a21.mul(a33).sub(a23.mul(a31));
    let b11 = a22.mul(a33).sub(a23.mul(a32));

    b00.mul(b11).sub(b01.mul(b10)).add(b02.mul(b09)).add(b03.mul(b08)).sub(b04.mul(b07)).add(
        b05.mul(b06),
    )
}

/// The transpose of `a`: element (r, c) of the result is element (c, r) of
/// `a`.
pub fn transpose<'a, T: Scalar>(out: &'a mut [T; 16], a: &[T; 16]) -> (r: &'a mut [T; 16])
    ensures
        r@ == transpose_seq(a@),
        final(out)@ == final(r)@,
{
    out[0] = a[0];
    out[1] = a[4];
    out[2] = a[8];
    out[3] = a[12];
    out[4] = a[1];
    out[5] = a[5];
    out[6] = a[9];
    out[7] = a[13];
    out[8] = a[2];
    out[9] = a[6];
    out[10] = a[10];
    out[11] = a[14];
    out[12] = a[3];
    out[13] = a[7];
    out[14] = a[11];
    out[15] = a[15];
    proof {
        assert(out@ =~= transpose_seq(a@));
    }
    out
}

/// Whether every element of `a` approximately equals the corresponding
/// element of `b`; the logical negation of [`ne`].
pub fn eq<T: Scalar>(a: &[T; 16], b: &[T; 16]) -> (r: bool)
    ensures
        r == approx_eq_seq(a@, b@),
{
    !ne(a, b)
}

/// Whether some element of `a` fails to approximately equal the
/// corresponding element of `b`.
pub fn ne<T: Scalar>(a: &[T; 16], b: &[T; 16]) -> (r: bool)
    ensures
        r == !approx_eq_seq(a@, b@),
{
    let r = !a[0].approx_eq(b[0]) || !a[1].approx_eq(b[1]) || !a[2].approx_eq(b[2])
        || !a[3].approx_eq(b[3]) || !a[4].approx_eq(b[4]) || !a[5].approx_eq(b[5])
        || !a[6].approx_eq(b[6]) || !a[7].approx_eq(b[7]) || !a[8].approx_eq(b[8])
        || !a[9].approx_eq(b[9]) || !a[10].approx_eq(b[10]) || !a[11].approx_eq(b[11])
        || !a[12].approx_eq(b[12]) || !a[13].approx_eq(b[13]) || !a[14].approx_eq(b[14])
        || !a[15].approx_eq(b[15]);
    proof {
        if !r {
            assert forall|i: int| 0 <= i < 16 implies a@[i].spec_approx_eq(#[trigger] b@[i]) by {
            }
        }
    }
    r
}

} // verus!
