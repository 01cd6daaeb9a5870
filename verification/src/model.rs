//! Specification-level model of 4x4 column-major matrices.
//!
//! A matrix value `[T; 16]` is modelled by its view, a `Seq<T>` of length 16;
//! the element at (row `r`, column `c`) is the sequence element `4 * c + r`.

use vstd::prelude::*;

use crate::scalar::Scalar;

verus! {

/// The identity matrix: multiplicative identity on the diagonal, additive
/// identity everywhere else.
pub open spec fn identity_seq<T: Scalar>() -> Seq<T> {
    Seq::new(16, |i: int| if i % 5 == 0 {
        T::spec_one()
    } else {
        T::spec_zero()
    })
}

/// The zero matrix: the additive identity in every element.
pub open spec fn zero_seq<T: Scalar>() -> Seq<T> {
    Seq::new(16, |i: int| T::spec_zero())
}

/// The transpose: element (r, c) of the result is element (c, r) of `a`.
pub open spec fn transpose_seq<T>(a: Seq<T>) -> Seq<T> {
    Seq::new(16, |i: int| a[4 * (i % 4) + i / 4])
}

/// Element `i` of the product `a * b`: with `r = i % 4` the row and
/// `c = 4 * (i / 4)` the start of the column of `b` that `i` lies in, the
/// inner product of row `r` of `a` with that column of `b`, summed left to
/// right.
pub open spec fn mul_entry<T: Scalar>(a: Seq<T>, b: Seq<T>, i: int) -> T {
    let r = i % 4;
    let c = 4 * (i / 4);
    b[c].spec_mul(a[r])
        .spec_add(b[c + 1].spec_mul(a[4 + r]))
        .spec_add(b[c + 2].spec_mul(a[8 + r]))
        .spec_add(b[c + 3].spec_mul(a[12 + r]))
}

/// The matrix product `a * b` under the column-major layout.
pub open spec fn mul_seq<T: Scalar>(a: Seq<T>, b: Seq<T>) -> Seq<T> {
    Seq::new(16, |i: int| mul_entry(a, b, i))
}

/// The element-wise scalar product `a * s`.
pub open spec fn smul_seq<T: Scalar>(a: Seq<T>, s: T) -> Seq<T> {
    Seq::new(16, |i: int| a[i].spec_mul(s))
}

/// The element-wise scalar quotient `a / s`, with the zero-divisor policy:
/// when `s` is the additive identity every element of the result is the
/// additive identity.
pub open spec fn sdiv_seq<T: Scalar>(a: Seq<T>, s: T) -> Seq<T> {
    Seq::new(16, |i: int| if s.spec_is_zero() {
        T::spec_zero()
    } else {
        a[i].spec_div(s)
    })
}

/// The 2x2 minor `a[i] * a[j] - a[k] * a[l]`.
pub open spec fn minor2<T: Scalar>(a: Seq<T>, i: int, j: int, k: int, l: int) -> T {
    a[i].spec_mul(a[j]).spec_sub(a[k].spec_mul(a[l]))
}

/// The determinant, by the cofactor expansion over the six 2x2 minors of the
/// first two columns (`minor2(a, 0, 5, 1, 4)` and friends) paired with the
/// six complementary minors of the last two columns.
pub open spec fn det_seq<T: Scalar>(a: Seq<T>) -> T {
    minor2(a, 0, 5, 1, 4).spec_mul(minor2(a, 10, 15, 11, 14))
        .spec_sub(minor2(a, 0, 6, 2, 4).spec_mul(minor2(a, 9, 15, 11, 13)))
        .spec_add(minor2(a, 0, 7, 3, 4).spec_mul(minor2(a, 9, 14, 10, 13)))
        .spec_add(minor2(a, 1, 6, 2, 5).spec_mul(minor2(a, 8, 15, 11, 12)))
        .spec_sub(minor2(a, 1, 7, 3, 5).spec_mul(minor2(a, 8, 14, 10, 12)))
        .spec_add(minor2(a, 2, 7, 3, 6).spec_mul(minor2(a, 8, 13, 9, 12)))
}

/// The inverse: the adjugate divided by the determinant, or the identity
/// matrix when the determinant is exactly the additive identity (the
/// degenerate-input policy; no epsilon tolerance).
pub open spec fn inverse_seq<T: Scalar>(a: Seq<T>) -> Seq<T> {
    if det_seq(a).spec_is_zero() {
        identity_seq::<T>()
    } else {
        let b00 = minor2(a, 0, 5, 1, 4);
        let b01 = minor2(a, 0, 6, 2, 4);
        let b02 = minor2(a, 0, 7, 3, 4);
        let b03 = minor2(a, 1, 6, 2, 5);
        let b04 = minor2(a, 1, 7, 3, 5);
        let b05 = minor2(a, 2, 7, 3, 6);
        let b06 = minor2(a, 8, 13, 9, 12);
        let b07 = minor2(a, 8, 14, 10, 12);
        let b08 = minor2(a, 8, 15, 11, 12);
        let b09 = minor2(a, 9, 14, 10, 13);
        let b10 = minor2(a, 9, 15, 11, 13);
        let b11 = minor2(a, 10, 15, 11, 14);
        let inv_d = T::spec_one().spec_div(det_seq(a));
        seq![
            a[5].spec_mul(b11).spec_sub(a[6].spec_mul(b10)).spec_add(a[7].spec_mul(b09)).spec_mul(inv_d),
            a[2].spec_mul(b10).spec_sub(a[1].spec_mul(b11)).spec_sub(a[3].spec_mul(b09)).spec_mul(inv_d),
            a[13].spec_mul(b05).spec_sub(a[14].spec_mul(b04)).spec_add(a[15].spec_mul(b03)).spec_mul(inv_d),
            a[10].spec_mul(b04).spec_sub(a[9].spec_mul(b05)).spec_sub(a[11].spec_mul(b03)).spec_mul(inv_d),
            a[6].spec_mul(b08).spec_sub(a[4].spec_mul(b11)).spec_sub(a[7].spec_mul(b07)).spec_mul(inv_d),
            a[0].spec_mul(b11).spec_sub(a[2].spec_mul(b08)).spec_add(a[3].spec_mul(b07)).spec_mul(inv_d),
            a[14].spec_mul(b02).spec_sub(a[12].spec_mul(b05)).spec_sub(a[15].spec_mul(b01)).spec_mul(inv_d),
            a[8].spec_mul(b05).spec_sub(a[10].spec_mul(b02)).spec_add(a[11].spec_mul(b01)).spec_mul(inv_d),
            a[4].spec_mul(b10).spec_sub(a[5].spec_mul(b08)).spec_add(a[7].spec_mul(b06)).spec_mul(inv_d),
            a[1].spec_mul(b08).spec_sub(a[0].spec_mul(b10)).spec_sub(a[3].spec_mul(b06)).spec_mul(inv_d),
            a[12].spec_mul(b04).spec_sub(a[13].spec_mul(b02)).spec_add(a[15].spec_mul(b00)).spec_mul(inv_d),
            a[9].spec_mul(b02).spec_sub(a[8].spec_mul(b04)).spec_sub(a[11].spec_mul(b00)).spec_mul(inv_d),
            a[5].spec_mul(b07).spec_sub(a[4].spec_mul(b09)).spec_sub(a[6].spec_mul(b06)).spec_mul(inv_d),
            a[0].spec_mul(b09).spec_sub(a[1].spec_mul(b07)).spec_add(a[2].spec_mul(b06)).spec_mul(inv_d),
            a[13].spec_mul(b01).spec_sub(a[12].spec_mul(b03)).spec_sub(a[14].spec_mul(b00)).spec_mul(inv_d),
            a[8].spec_mul(b03).spec_sub(a[9].spec_mul(b01)).spec_add(a[10].spec_mul(b00)).spec_mul(inv_d),
        ]
    }
}

/// Approximate equality of two matrices: every element of `a` approximately
/// equals the corresponding element of `b`, by the element type's own
/// approximate-equality predicate.
pub open spec fn approx_eq_seq<T: Scalar>(a: Seq<T>, b: Seq<T>) -> bool {
    forall|i: int| 0 <= i < 16 ==> a[i].spec_approx_eq(#[trigger] b[i])
}

} // verus!
