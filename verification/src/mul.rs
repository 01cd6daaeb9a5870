//! Matrix-by-matrix and matrix-by-scalar multiplication.

use vstd::prelude::*;

use crate::model::mul_seq;
use crate::model::smul_seq;
use crate::scalar::Scalar;

verus! {

/// The product `a * b` under the column-major layout: each column of the
/// result is `a` applied to the corresponding column of `b`.
pub fn mul<'a, T: Scalar>(out: &'a mut [T; 16], a: &[T; 16], b: &[T; 16]) -> (r: &'a mut [T; 16])
    ensures
        r@ == mul_seq(a@, b@),
        final(out)@ == final(r)@,
{
    let a00 = a[0];
    let a01 = a[1];
    let a02 = a[2];
    let a03 = a[3];
    let a10 = a[4];
    let a11 = a[5];
    let a12 = a[6];
    let a13 = a[7];
    let a20 = a[8];
    let a21 = a[9];
    let a22 = a[10];
    let a23 = a[11];
    let a30 = a[12];
    let a31 = a[13];
    let a32 = a[14];
    let a33 = a[15];

    let mut b0 = b[0];
    let mut b1 = b[1];
    let mut b2 = b[2];
    let mut b3 = b[3];
    out[0] = b0.mul(a00).add(b1.mul(a10)).add(b2.mul(a20)).add(b3.mul(a30));
    out[1] = b0.mul(a01).add(b1.mul(a11)).add(b2.mul(a21)).add(b3.mul(a31));
    out[2] = b0.mul(a02).add(b1.mul(a12)).add(b2.mul(a22)).add(b3.mul(a32));
    out[3] = b0.mul(a03).add(b1.mul(a13)).add(b2.mul(a23)).add(b3.mul(a33));

    b0 = b[4];
    b1 = b[5];
    b2 = b[6];
    b3 = b[7];
    out[4] = b0.mul(a00).add(b1.mul(a10)).add(b2.mul(a20)).add(b3.mul(a30));
    out[5] = b0.mul(a01).add(b1.mul(a11)).add(b2.mul(a21)).add(b3.mul(a31));
    out[6] = b0.mul(a02).add(b1.mul(a12)).add(b2.mul(a22)).add(b3.mul(a32));
    out[7] = b0.mul(a03).add(b1.mul(a13)).add(b2.mul(a23)).add(b3.mul(a33));

    b0 = b[8];
    b1 = b[9];
    b2 = b[10];
    b3 = b[11];
    out[8] = b0.mul(a00).add(b1.mul(a10)).add(b2.mul(a20)).add(b3.mul(a30));
    out[9] = b0.mul(a01).add(b1.mul(a11)).add(b2.mul(a21)).add(b3.mul(a31));
    out[10] = b0.mul(a02).add(b1.mul(a12)).add(b2.mul(a22)).add(b3.mul(a32));
    out[11] = b0.mul(a03).add(b1.mul(a13)).add(b2.mul(a23)).add(b3.mul(a33));

    b0 = b[12];
    b1 = b[13];
    b2 = b[14];
    b3 = b[15];
    out[12] = b0.mul(a00).add(b1.mul(a10)).add(b2.mul(a20)).add(b3.mul(a30));
    out[13] = b0.mul(a01).add(b1.mul(a11)).add(b2.mul(a21)).add(b3.mul(a31));
    out[14] = b0.mul(a02).add(b1.mul(a12)).add(b2.mul(a22)).add(b3.mul(a32));
    out[15] = b0.mul(a03).add(b1.mul(a13)).add(b2.mul(a23)).add(b3.mul(a33));

    proof {
        assert(out@ =~= mul_seq(a@, b@));
    }
    out
}

/// The element-wise scalar product `a * s`.
pub fn smul<'a, T: Scalar>(out: &'a mut [T; 16], a: &[T; 16], s: T) -> (r: &'a mut [T; 16])
    ensures
        r@ == smul_seq(a@, s),
        final(out)@ == final(r)@,
{
    out[0] = a[0].mul(s);
    out[1] = a[1].mul(s);
    out[2] = a[2].mul(s);
    out[3] = a[3].mul(s);
    out[4] = a[4].mul(s);
    out[5] = a[5].mul(s);
    out[6] = a[6].mul(s);
    out[7] = a[7].mul(s);
    out[8] = a[8].mul(s);
    out[9] = a[9].mul(s);
    out[10] = a[10].mul(s);
    out[11] = a[11].mul(s);
    out[12] = a[12].mul(s);
    out[13] = a[13].mul(s);
    out[14] = a[14].mul(s);
    out[15] = a[15].mul(s);
    proof {
        assert(out@ =~= smul_seq(a@, s));
    }
    out
}

} // verus!
