//! Transform composition and decomposition, and projection/camera matrices.

use vstd::prelude::*;

use crate::create::clone;
use crate::create::new_identity;
use crate::model::identity_seq;
use crate::scalar::Scalar;
use crate::set::identity;

verus! {

/// The length of the vector (x, y, z): the square root of the sum of the
/// squares.
pub open spec fn len3_spec<T: Scalar>(x: T, y: T, z: T) -> T {
    x.spec_mul(x).spec_add(y.spec_mul(y)).spec_add(z.spec_mul(z)).spec_sqrt()
}

fn length3<T: Scalar>(x: T, y: T, z: T) -> (r: T)
    ensures
        r == len3_spec(x, y, z),
{
    x.mul(x).add(y.mul(y)).add(z.mul(z)).sqrt()
}

/// `a` right-multiplied by the translation of `v`: the linear block is kept,
/// and the translation column becomes the linear block applied to `v` plus
/// the old translation column.
pub open spec fn translate_seq<T: Scalar>(a: Seq<T>, v: Seq<T>) -> Seq<T> {
    Seq::new(16, |i: int| if i < 12 {
        a[i]
    } else {
        a[i - 12].spec_mul(v[0])
            .spec_add(a[i - 8].spec_mul(v[1]))
            .spec_add(a[i - 4].spec_mul(v[2]))
            .spec_add(a[i])
    })
}

/// Each of the first three columns of `a` scaled by the corresponding
/// component of `v`; the translation column is kept.
pub open spec fn scale_seq<T: Scalar>(a: Seq<T>, v: Seq<T>) -> Seq<T> {
    Seq::new(16, |i: int| if i < 4 {
        a[i].spec_mul(v[0])
    } else if i < 8 {
        a[i].spec_mul(v[1])
    } else if i < 12 {
        a[i].spec_mul(v[2])
    } else {
        a[i]
    })
}

/// `a` right-multiplied by the elementary rotation about the x axis by
/// `angle`: the first and translation columns are kept, the second and third
/// columns are recombined through the sine and cosine of `angle`.
pub open spec fn rotate_x_seq<T: Scalar>(a: Seq<T>, angle: T) -> Seq<T> {
    let s = angle.spec_sin();
    let c = angle.spec_cos();
    Seq::new(16, |i: int| if i < 4 {
        a[i]
    } else if i < 8 {
        a[i].spec_mul(c).spec_add(a[i + 4].spec_mul(s))
    } else if i < 12 {
        a[i].spec_mul(c).spec_sub(a[i - 4].spec_mul(s))
    } else {
        a[i]
    })
}

/// `a` right-multiplied by the elementary rotation about the y axis by
/// `angle`: the second and translation columns are kept.
pub open spec fn rotate_y_seq<T: Scalar>(a: Seq<T>, angle: T) -> Seq<T> {
    let s = angle.spec_sin();
    let c = angle.spec_cos();
    Seq::new(16, |i: int| if i < 4 {
        a[i].spec_mul(c).spec_sub(a[i + 8].spec_mul(s))
    } else if i < 8 {
        a[i]
    } else if i < 12 {
        a[i - 8].spec_mul(s).spec_add(a[i].spec_mul(c))
    } else {
        a[i]
    })
}

/// `a` right-multiplied by the elementary rotation about the z axis by
/// `angle`: the third and translation columns are kept.
pub open spec fn rotate_z_seq<T: Scalar>(a: Seq<T>, angle: T) -> Seq<T> {
    let s = angle.spec_sin();
    let c = angle.spec_cos();
    Seq::new(16, |i: int| if i < 4 {
        a[i].spec_mul(c).spec_add(a[i + 4].spec_mul(s))
    } else if i < 8 {
        a[i].spec_mul(c).spec_sub(a[i - 4].spec_mul(s))
    } else {
        a[i]
    })
}

/// `m` with `v` written into the translation column.
pub open spec fn set_position_seq<T: Scalar>(m: Seq<T>, v: Seq<T>) -> Seq<T> {
    m.update(12, v[0]).update(13, v[1]).update(14, v[2])
}

/// `m` with the translation column of `a` written into its own.
pub open spec fn extract_position_seq<T: Scalar>(m: Seq<T>, a: Seq<T>) -> Seq<T> {
    m.update(12, a[12]).update(13, a[13]).update(14, a[14])
}

/// `m` with the 3x3 block of `a` re-orthonormalized into its own: each basis
/// column of `a` is scaled by the reciprocal of its own length.
pub open spec fn extract_rotation_seq<T: Scalar>(m: Seq<T>, a: Seq<T>) -> Seq<T> {
    let inv_sx = T::spec_one().spec_div(len3_spec(a[0], a[1], a[2]));
    let inv_sy = T::spec_one().spec_div(len3_spec(a[4], a[5], a[6]));
    let inv_sz = T::spec_one().spec_div(len3_spec(a[8], a[9], a[10]));
    m.update(0, a[0].spec_mul(inv_sx)).update(1, a[1].spec_mul(inv_sx)).update(
        2,
        a[2].spec_mul(inv_sx),
    ).update(4, a[4].spec_mul(inv_sy)).update(5, a[5].spec_mul(inv_sy)).update(
        6,
        a[6].spec_mul(inv_sy),
    ).update(8, a[8].spec_mul(inv_sz)).update(9, a[9].spec_mul(inv_sz)).update(
        10,
        a[10].spec_mul(inv_sz),
    )
}

/// Writes `v` into the translation column of `out`; everything else is kept.
pub fn set_position<'a, T: Scalar>(out: &'a mut [T; 16], v: &[T; 3]) -> (r: &'a mut [T; 16])
    ensures
        r@ == set_position_seq(old(out)@, v@),
        final(out)@ == final(r)@,
{
    out[12] = v[0];
    out[13] = v[1];
    out[14] = v[2];
    proof {
        assert(out@ =~= set_position_seq(old(out)@, v@));
    }
    out
}

/// Copies the translation column of `a` into `out`; everything else is kept.
pub fn extract_position<'a, T: Scalar>(out: &'a mut [T; 16], a: &[T; 16]) -> (r: &'a mut [T; 16])
    ensures
        r@ == extract_position_seq(old(out)@, a@),
        final(out)@ == final(r)@,
{
    out[12] = a[12];
    out[13] = a[13];
    out[14] = a[14];
    proof {
        assert(out@ =~= extract_position_seq(old(out)@, a@));
    }
    out
}

/// Writes the re-orthonormalized 3x3 block of `a` into `out`: each basis
/// column is scaled by the reciprocal of its own length.  The fourth row,
/// the translation column and the remaining elements of `out` are kept.
pub fn extract_rotation<'a, T: Scalar>(out: &'a mut [T; 16], a: &[T; 16]) -> (r: &'a mut [T; 16])
    ensures
        r@ == extract_rotation_seq(old(out)@, a@),
        final(out)@ == final(r)@,
{
    let sx = length3(a[0], a[1], a[2]);
    let sy = length3(a[4], a[5], a[6]);
    let sz = length3(a[8], a[9], a[10]);

    let inv_sx = T::one().div(sx);
    let inv_sy = T::one().div(sy);
    let inv_sz = T::one().div(sz);

    out[0] = a[0].mul(inv_sx);
    out[1] = a[1].mul(inv_sx);
    out[2] = a[2].mul(inv_sx);
    out[4] = a[4].mul(inv_sy);
    out[5] = a[5].mul(inv_sy);
    out[6] = a[6].mul(inv_sy);
    out[8] = a[8].mul(inv_sz);
    out[9] = a[9].mul(inv_sz);
    out[10] = a[10].mul(inv_sz);
    proof {
        assert(out@ =~= extract_rotation_seq(old(out)@, a@));
    }
    out
}

/// `a` right-multiplied by the translation of `v`.
pub fn translate<'a, T: Scalar>(out: &'a mut [T; 16], a: &[T; 16], v: &[T; 3]) -> (r: &'a mut [T; 16])
    ensures
        r@ == translate_seq(a@, v@),
        final(out)@ == final(r)@,
{
    let x = v[0];
    let y = v[1];
    let z = v[2];
    let a00 = a[0];
    let a01 = a[1];
    let a02 = a[2];
    let a03 = a[3];
    let a10 = a[4];
    let a11 = a[5];
    let a12 = a[6];
    let a13 = a[7];
    let a20 = a[8];
    let a21 = a[9];
    let a22 = a[10];
    let a23 = a[11];

    out[0] = a00;
    out[1] = a01;
    out[2] = a02;
    out[3] = a03;
    out[4] = a10;
    out[5] = a11;
    out[6] = a12;
    out[7] = a13;
    out[8] = a20;
    out[9] = a21;
    out[10] = a22;
    out[11] = a23;

    out[12] = a00.mul(x).add(a10.mul(y)).add(a20.mul(z)).add(a[12]);
    out[13] = a01.mul(x).add(a11.mul(y)).add(a21.mul(z)).add(a[13]);
    out[14] = a02.mul(x).add(a12.mul(y)).add(a22.mul(z)).add(a[14]);
    out[15] = a03.mul(x).add(a13.mul(y)).add(a23.mul(z)).add(a[15]);
    proof {
        assert(out@ =~= translate_seq(a@, v@));
    }
    out
}

/// Each of the first three columns of `a` scaled by the corresponding
/// component of `v`; the translation column is kept.
pub fn scale<'a, T: Scalar>(out: &'a mut [T; 16], a: &[T; 16], v: &[T; 3]) -> (r: &'a mut [T; 16])
    ensures
        r@ == scale_seq(a@, v@),
        final(out)@ == final(r)@,
{
    let x = v[0];
    let y = v[1];
    let z = v[2];

    out[0] = a[0].mul(x);
    out[1] = a[1].mul(x);
    out[2] = a[2].mul(x);
    out[3] = a[3].mul(x);
    out[4] = a[4].mul(y);
    out[5] = a[5].mul(y);
    out[6] = a[6].mul(y);
    out[7] = a[7].mul(y);
    out[8] = a[8].mul(z);
    out[9] = a[9].mul(z);
    out[10] = a[10].mul(z);
    out[11] = a[11].mul(z);
    out[12] = a[12];
    out[13] = a[13];
    out[14] = a[14];
    out[15] = a[15];
    proof {
        assert(out@ =~= scale_seq(a@, v@));
    }
    out
}

/// `a` right-multiplied by the elementary rotation about the x axis.
pub fn rotate_x<'a, T: Scalar>(out: &'a mut [T; 16], a: &[T; 16], angle: T) -> (r: &'a mut [T; 16])
    ensures
        r@ == rotate_x_seq(a@, angle),
        final(out)@ == final(r)@,
{
    let s = angle.sin();
    let c = angle.cos();
    let a10 = a[4];
    let a11 = a[5];
    let a12 = a[6];
    let a13 = a[7];
    let a20 = a[8];
    let a21 = a[9];
    let a22 = a[10];
    let a23 = a[11];

    out[0] = a[0];
    out[1] = a[1];
    out[2] = a[2];
    out[3] = a[3];
    out[12] = a[12];
    out[13] = a[13];
    out[14] = a[14];
    out[15] = a[15];
    out[4] = a10.mul(c).add(a20.mul(s));
    out[5] = a11.mul(c).add(a21.mul(s));
    out[6] = a12.mul(c).add(a22.mul(s));
    out[7] = a13.mul(c).add(a23.mul(s));
    out[8] = a20.mul(c).sub(a10.mul(s));
    out[9] = a21.mul(c).sub(a11.mul(s));
    out[10] = a22.mul(c).sub(a12.mul(s));
    out[11] = a23.mul(c).sub(a13.mul(s));
    proof {
        assert(out@ =~= rotate_x_seq(a@, angle));
    }
    out
}

/// `a` right-multiplied by the elementary rotation about the y axis.
pub fn rotate_y<'a, T: Scalar>(out: &'a mut [T; 16], a: &[T; 16], angle: T) -> (r: &'a mut [T; 16])
    ensures
        r@ == rotate_y_seq(a@, angle),
        final(out)@ == final(r)@,
{
    let s = angle.sin();
    let c = angle.cos();
    let a00 = a[0];
    let a01 = a[1];
    let a02 = a[2];
    let a03 = a[3];
    let a20 = a[8];
    let a21 = a[9];
    let a22 = a[10];
    let a23 = a[11];

    out[4] = a[4];
    out[5] = a[5];
    out[6] = a[6];
    out[7] = a[7];
    out[12] = a[12];
    out[13] = a[13];
    out[14] = a[14];
    out[15] = a[15];
    out[0] = a00.mul(c).sub(a20.mul(s));
    out[1] = a01.mul(c).sub(a21.mul(s));
    out[2] = a02.mul(c).sub(a22.mul(s));
    out[3] = a03.mul(c).sub(a23.mul(s));
    out[8] = a00.mul(s).add(a20.mul(c));
    out[9] = a01.mul(s).add(a21.mul(c));
    out[10] = a02.mul(s).add(a22.mul(c));
    out[11] = a03.mul(s).add(a23.mul(c));
    proof {
        assert(out@ =~= rotate_y_seq(a@, angle));
    }
    out
}

/// `a` right-multiplied by the elementary rotation about the z axis.
pub fn rotate_z<'a, T: Scalar>(out: &'a mut [T; 16], a: &[T; 16], angle: T) -> (r: &'a mut [T; 16])
    ensures
        r@ == rotate_z_seq(a@, angle),
        final(out)@ == final(r)@,
{
    let s = angle.sin();
    let c = angle.cos();
    let a00 = a[0];
    let a01 = a[1];
    let a02 = a[2];
    let a03 = a[3];
    let a10 = a[4];
    let a11 = a[5];
    let a12 = a[6];
    let a13 = a[7];

    out[8] = a[8];
    out[9] = a[9];
    out[10] = a[10];
    out[11] = a[11];
    out[12] = a[12];
    out[13] = a[13];
    out[14] = a[14];
    out[15] = a[15];
    out[0] = a00.mul(c).add(a10.mul(s));
    out[1] = a01.mul(c).add(a11.mul(s));
    out[2] = a02.mul(c).add(a12.mul(s));
    out[3] = a03.mul(c).add(a13.mul(s));
    out[4] = a10.mul(c).sub(a00.mul(s));
    out[5] = a11.mul(c).sub(a01.mul(s));
    out[6] = a12.mul(c).sub(a02.mul(s));
    out[7] = a13.mul(c).sub(a03.mul(s));
    proof {
        assert(out@ =~= rotate_z_seq(a@, angle));
    }
    out
}

/// The full TRS matrix of a translation, a non-uniform scale and a rotation
/// quaternion: the quaternion's doubled cross terms populate the 3x3
/// rotation block, each column is scaled by the corresponding scale
/// component, the translation column is the position, and the bottom row is
/// forced to (0, 0, 0, 1).
pub open spec fn compose_seq<T: Scalar>(position: Seq<T>, scale: Seq<T>, rotation: Seq<T>) -> Seq<
    T,
> {
    let x = rotation[0];
    let y = rotation[1];
    let z = rotation[2];
    let w = rotation[3];
    let x2 = x.spec_add(x);
    let y2 = y.spec_add(y);
    let z2 = z.spec_add(z);
    let xx = x.spec_mul(x2);
    let xy = x.spec_mul(y2);
    let xz = x.spec_mul(z2);
    let yy = y.spec_mul(y2);
    let yz = y.spec_mul(z2);
    let zz = z.spec_mul(z2);
    let wx = w.spec_mul(x2);
    let wy = w.spec_mul(y2);
    let wz = w.spec_mul(z2);
    seq![
        T::spec_one().spec_sub(yy.spec_add(zz)).spec_mul(scale[0]),
        xy.spec_add(wz).spec_mul(scale[0]),
        xz.spec_sub(wy).spec_mul(scale[0]),
        T::spec_zero(),
        xy.spec_sub(wz).spec_mul(scale[1]),
        T::spec_one().spec_sub(xx.spec_add(zz)).spec_mul(scale[1]),
        yz.spec_add(wx).spec_mul(scale[1]),
        T::spec_zero(),
        xz.spec_add(wy).spec_mul(scale[2]),
        yz.spec_sub(wx).spec_mul(scale[2]),
        T::spec_one().spec_sub(xx.spec_add(yy)).spec_mul(scale[2]),
        T::spec_zero(),
        position[0],
        position[1],
        position[2],
        T::spec_one(),
    ]
}

/// The pure rotation matrix of the quaternion `q`: the same rotation block
/// as [`compose_seq`] with unit scale, and the identity translation.
pub open spec fn from_quat_seq<T: Scalar>(q: Seq<T>) -> Seq<T> {
    let x = q[0];
    let y = q[1];
    let z = q[2];
    let w = q[3];
    let x2 = x.spec_add(x);
    let y2 = y.spec_add(y);
    let z2 = z.spec_add(z);
    let xx = x.spec_mul(x2);
    let xy = x.spec_mul(y2);
    let xz = x.spec_mul(z2);
    let yy = y.spec_mul(y2);
    let yz = y.spec_mul(z2);
    let zz = z.spec_mul(z2);
    let wx = w.spec_mul(x2);
    let wy = w.spec_mul(y2);
    let wz = w.spec_mul(z2);
    seq![
        T::spec_one().spec_sub(yy.spec_add(zz)),
        xy.spec_add(wz),
        xz.spec_sub(wy),
        T::spec_zero(),
        xy.spec_sub(wz),
        T::spec_one().spec_sub(xx.spec_add(zz)),
        yz.spec_add(wx),
        T::spec_zero(),
        xz.spec_add(wy),
        yz.spec_sub(wx),
        T::spec_one().spec_sub(xx.spec_add(yy)),
        T::spec_zero(),
        T::spec_zero(),
        T::spec_zero(),
        T::spec_zero(),
        T::spec_one(),
    ]
}

/// The scale part of the TRS decomposition of `a`: the lengths of its first
/// three columns.
pub open spec fn decompose_scale_seq<T: Scalar>(a: Seq<T>) -> Seq<T> {
    seq![
        len3_spec(a[0], a[1], a[2]),
        len3_spec(a[4], a[5], a[6]),
        len3_spec(a[8], a[9], a[10]),
    ]
}

/// The rotation quaternion of the TRS decomposition of `a`: each basis
/// column is first normalized by dividing by its own length (a zero length
/// is not special-cased), then the quaternion is read off by the standard
/// four-branch trace method, with strict comparisons and no epsilon.
pub open spec fn decompose_rotation_seq<T: Scalar>(a: Seq<T>) -> Seq<T> {
    let inv_sx = T::spec_one().spec_div(len3_spec(a[0], a[1], a[2]));
    let inv_sy = T::spec_one().spec_div(len3_spec(a[4], a[5], a[6]));
    let inv_sz = T::spec_one().spec_div(len3_spec(a[8], a[9], a[10]));
    let m11 = a[0].spec_mul(inv_sx);
    let m12 = a[4].spec_mul(inv_sy);
    let m13 = a[8].spec_mul(inv_sz);
    let m21 = a[1].spec_mul(inv_sx);
    let m22 = a[5].spec_mul(inv_sy);
    let m23 = a[9].spec_mul(inv_sz);
    let m31 = a[2].spec_mul(inv_sx);
    let m32 = a[6].spec_mul(inv_sy);
    let m33 = a[10].spec_mul(inv_sz);
    let trace = m11.spec_add(m22).spec_add(m33);
    if T::spec_zero().spec_lt(trace) {
        let s = T::spec_half().spec_div(trace.spec_add(T::spec_one()).spec_sqrt());
        let inv_s = if s.spec_is_zero() {
            s
        } else {
            T::spec_one().spec_div(s)
        };
        seq![
            m32.spec_sub(m23).spec_mul(s),
            m13.spec_sub(m31).spec_mul(s),
            m21.spec_sub(m12).spec_mul(s),
            T::spec_quarter().spec_mul(inv_s),
        ]
    } else if m22.spec_lt(m11) && m33.spec_lt(m11) {
        let s = T::spec_two().spec_mul(
            T::spec_one().spec_add(m11).spec_sub(m22).spec_sub(m33).spec_sqrt(),
        );
        let inv_s = if s.spec_is_zero() {
            s
        } else {
            T::spec_one().spec_div(s)
        };
        seq![
            T::spec_quarter().spec_mul(s),
            m12.spec_add(m21).spec_mul(inv_s),
            m13.spec_add(m31).spec_mul(inv_s),
            m32.spec_sub(m23).spec_mul(inv_s),
        ]
    } else if m33.spec_lt(m22) {
        let s = T::spec_two().spec_mul(
            T::spec_one().spec_add(m22).spec_sub(m11).spec_sub(m33).spec_sqrt(),
        );
        let inv_s = if s.spec_is_zero() {
            s
        } else {
            T::spec_one().spec_div(s)
        };
        seq![
            m12.spec_add(m21).spec_mul(inv_s),
            T::spec_quarter().spec_mul(s),
            m23.spec_add(m32).spec_mul(inv_s),
            m13.spec_sub(m31).spec_mul(inv_s),
        ]
    } else {
        let s = T::spec_two().spec_mul(
            T::spec_one().spec_add(m33).spec_sub(m11).spec_sub(m22).spec_sqrt(),
        );
        let inv_s = if s.spec_is_zero() {
            s
        } else {
            T::spec_one().spec_div(s)
        };
        seq![
            m13.spec_add(m31).spec_mul(inv_s),
            m23.spec_add(m32).spec_mul(inv_s),
            T::spec_quarter().spec_mul(s),
            m21.spec_sub(m12).spec_mul(inv_s),
        ]
    }
}

/// Builds the full TRS matrix of `position`, `scale` and the rotation
/// quaternion `rotation` directly from quaternion algebra, with no
/// intermediate rotation matrix.
pub fn compose<'a, T: Scalar>(
    out: &'a mut [T; 16],
    position: &[T; 3],
    scale: &[T; 3],
    rotation: &[T; 4],
) -> (r: &'a mut [T; 16])
    ensures
        r@ == compose_seq(position@, scale@, rotation@),
        final(out)@ == final(r)@,
{
    let x = rotation[0];
    let y = rotation[1];
    let z = rotation[2];
    let w = rotation[3];
    let x2 = x.add(x);
    let y2 = y.add(y);
    let z2 = z.add(z);
    let xx = x.mul(x2);
    let xy = x.mul(y2);
    let xz = x.mul(z2);
    let yy = y.mul(y2);
    let yz = y.mul(z2);
    let zz = z.mul(z2);
    let wx = w.mul(x2);
    let wy = w.mul(y2);
    let wz = w.mul(z2);

    let sx = scale[0];
    let sy = scale[1];
    let sz = scale[2];

    out[0] = T::one().sub(yy.add(zz)).mul(sx);
    out[4] = xy.sub(wz).mul(sy);
    out[8] = xz.add(wy).mul(sz);

    out[1] = xy.add(wz).mul(sx);
    out[5] = T::one().sub(xx.add(zz)).mul(sy);
    out[9] = yz.sub(wx).mul(sz);

    out[2] = xz.sub(wy).mul(sx);
    out[6] = yz.add(wx).mul(sy);
    out[10] = T::one().sub(xx.add(yy)).mul(sz);

    out[3] = T::zero();
    out[7] = T::zero();
    out[11] = T::zero();

    out[12] = position[0];
    out[13] = position[1];
    out[14] = position[2];
    out[15] = T::one();
    proof {
        assert(out@ =~= compose_seq(position@, scale@, rotation@));
    }
    out
}

/// Decomposes the affine matrix `out` into its TRS triple, the inverse of
/// [`compose`]: the translation column is the position, the column lengths
/// are the scale, and the rotation quaternion is read off the normalized
/// 3x3 block by the four-branch trace method.
pub fn decompose<T: Scalar>(
    out: &[T; 16],
    position: &mut [T; 3],
    scale: &mut [T; 3],
    rotation: &mut [T; 4],
)
    ensures
        final(position)@ == seq![out@[12], out@[13], out@[14]],
        final(scale)@ == decompose_scale_seq(out@),
        final(rotation)@ == decompose_rotation_seq(out@),
{
    let mut m11 = out[0];
    let mut m12 = out[4];
    let mut m13 = out[8];
    let mut m21 = out[1];
    let mut m22 = out[5];
    let mut m23 = out[9];
    let mut m31 = out[2];
    let mut m32 = out[6];
    let mut m33 = out[10];

    let sx = length3(m11, m21, m31);
    let sy = length3(m12, m22, m32);
    let sz = length3(m13, m23, m33);

    let inv_sx = T::one().div(sx);
    let inv_sy = T::one().div(sy);
    let inv_sz = T::one().div(sz);

    scale[0] = sx;
    scale[1] = sy;
    scale[2] = sz;

    position[0] = out[12];
    position[1] = out[13];
    position[2] = out[14];

    m11 = m11.mul(inv_sx);
    m12 = m12.mul(inv_sy);
    m13 = m13.mul(inv_sz);
    m21 = m21.mul(inv_sx);
    m22 = m22.mul(inv_sy);
    m23 = m23.mul(inv_sz);
    m31 = m31.mul(inv_sx);
    m32 = m32.mul(inv_sy);
    m33 = m33.mul(inv_sz);

    let trace = m11.add(m22).add(m33);

    if T::zero().lt(trace) {
        let s = T::half().div(trace.add(T::one()).sqrt());
        let inv_s = if !s.is_zero() {
            T::one().div(s)
        } else {
            s
        };

        rotation[0] = m32.sub(m23).mul(s);
        rotation[1] = m13.sub(m31).mul(s);
        rotation[2] = m21.sub(m12).mul(s);
        rotation[3] = T::quarter().mul(inv_s);
    } else if m22.lt(m11) && m33.lt(m11) {
        let s = T::two().mul(T::one().add(m11).sub(m22).sub(m33).sqrt());
        let inv_s = if !s.is_zero() {
            T::one().div(s)
        } else {
            s
        };

        rotation[0] = T::quarter().mul(s);
        rotation[1] = m12.add(m21).mul(inv_s);
        rotation[2] = m13.add(m31).mul(inv_s);
        rotation[3] = m32.sub(m23).mul(inv_s);
    } else if m33.lt(m22) {
        let s = T::two().mul(T::one().add(m22).sub(m11).sub(m33).sqrt());
        let inv_s = if !s.is_zero() {
            T::one().div(s)
        } else {
            s
        };

        rotation[0] = m12.add(m21).mul(inv_s);
        rotation[1] = T::quarter().mul(s);
        rotation[2] = m23.add(m32).mul(inv_s);
        rotation[3] = m13.sub(m31).mul(inv_s);
    } else {
        let s = T::two().mul(T::one().add(m33).sub(m11).sub(m22).sqrt());
        let inv_s = if !s.is_zero() {
            T::one().div(s)
        } else {
            s
        };

        rotation[0] = m13.add(m31).mul(inv_s);
        rotation[1] = m23.add(m32).mul(inv_s);
        rotation[2] = T::quarter().mul(s);
        rotation[3] = m21.sub(m12).mul(inv_s);
    }
    proof {
        assert(position@ =~= seq![out@[12], out@[13], out@[14]]);
        assert(scale@ =~= decompose_scale_seq(out@));
        assert(rotation@ =~= decompose_rotation_seq(out@));
    }
}

/// The pure rotation matrix of the quaternion `q`.
pub fn from_quat<'a, T: Scalar>(out: &'a mut [T; 16], q: &[T; 4]) -> (r: &'a mut [T; 16])
    ensures
        r@ == from_quat_seq(q@),
        final(out)@ == final(r)@,
{
    let x = q[0];
    let y = q[1];
    let z = q[2];
    let w = q[3];
    let x2 = x.add(x);
    let y2 = y.add(y);
    let z2 = z.add(z);
    let xx = x.mul(x2);
    let xy = x.mul(y2);
    let xz = x.mul(z2);
    let yy = y.mul(y2);
    let yz = y.mul(z2);
    let zz = z.mul(z2);
    let wx = w.mul(x2);
    let wy = w.mul(y2);
    let wz = w.mul(z2);

    out[0] = T::one().sub(yy.add(zz));
    out[4] = xy.sub(wz);
    out[8] = xz.add(wy);

    out[1] = xy.add(wz);
    out[5] = T::one().sub(xx.add(zz));
    out[9] = yz.sub(wx);

    out[2] = xz.sub(wy);
    out[6] = yz.add(wx);
    out[10] = T::one().sub(xx.add(yy));

    out[3] = T::zero();
    out[7] = T::zero();
    out[11] = T::zero();

    out[12] = T::zero();
    out[13] = T::zero();
    out[14] = T::zero();
    out[15] = T::one();
    proof {
        assert(out@ =~= from_quat_seq(q@));
    }
    out
}

/// `a` rotated by the three Euler angles, composed in the fixed order: first
/// about z, then about x, then about y.  The order is a load-bearing
/// convention: any other order changes the result for all but trivial
/// angles.
pub fn rotate<'a, T: Scalar>(out: &'a mut [T; 16], a: &[T; 16], x: T, y: T, z: T) -> (r: &'a mut [T; 16])
    ensures
        r@ == rotate_y_seq(rotate_x_seq(rotate_z_seq(a@, z), x), y),
        final(out)@ == final(r)@,
{
    let mut tmp_a = clone(a);
    let mut tmp_b = new_identity();
    rotate_z(&mut tmp_a, a, z);
    rotate_x(&mut tmp_b, &tmp_a, x);
    rotate_y(out, &tmp_b, y);
    out
}

/// The right-handed view matrix of a camera at `eye` looking at `target`
/// with the up hint `up`.  Degenerate-camera policies: when `eye` and
/// `target` coincide within the element type's epsilon, component by
/// component, the result is the identity matrix; when `up` is parallel to
/// the view direction (a zero cross product), the side basis vector is
/// zero-filled rather than nudged, and likewise for the recomputed up basis
/// vector.
pub open spec fn look_at_seq<T: Scalar>(eye: Seq<T>, target: Seq<T>, up: Seq<T>) -> Seq<T> {
    let z0 = eye[0].spec_sub(target[0]);
    let z1 = eye[1].spec_sub(target[1]);
    let z2 = eye[2].spec_sub(target[2]);
    if z0.spec_abs().spec_lt(T::spec_eps()) && z1.spec_abs().spec_lt(T::spec_eps())
        && z2.spec_abs().spec_lt(T::spec_eps()) {
        identity_seq::<T>()
    } else {
        let zlen = T::spec_one().spec_div(
            z0.spec_mul(z0).spec_add(z1.spec_mul(z1)).spec_add(z2.spec_mul(z2)).spec_sqrt(),
        );
        let zn0 = z0.spec_mul(zlen);
        let zn1 = z1.spec_mul(zlen);
        let zn2 = z2.spec_mul(zlen);
        let x0 = up[1].spec_mul(zn2).spec_sub(up[2].spec_mul(zn1));
        let x1 = up[2].spec_mul(zn0).spec_sub(up[0].spec_mul(zn2));
        let x2 = up[0].spec_mul(zn1).spec_sub(up[1].spec_mul(zn0));
        let xlen = x0.spec_mul(x0).spec_add(x1.spec_mul(x1)).spec_add(x2.spec_mul(x2)).spec_sqrt();
        let xn0 = if xlen.spec_is_zero() {
            T::spec_zero()
        } else {
            x0.spec_mul(T::spec_one().spec_div(xlen))
        };
        let xn1 = if xlen.spec_is_zero() {
            T::spec_zero()
        } else {
            x1.spec_mul(T::spec_one().spec_div(xlen))
        };
        let xn2 = if xlen.spec_is_zero() {
            T::spec_zero()
        } else {
            x2.spec_mul(T::spec_one().spec_div(xlen))
        };
        let y0 = zn1.spec_mul(xn2).spec_sub(zn2.spec_mul(xn1));
        let y1 = zn2.spec_mul(xn0).spec_sub(zn0.spec_mul(xn2));
        let y2 = zn0.spec_mul(xn1).spec_sub(zn1.spec_mul(xn0));
        let ylen = y0.spec_mul(y0).spec_add(y1.spec_mul(y1)).spec_add(y2.spec_mul(y2)).spec_sqrt();
        let yn0 = if ylen.spec_is_zero() {
            T::spec_zero()
        } else {
            y0.spec_mul(T::spec_one().spec_div(ylen))
        };
        let yn1 = if ylen.spec_is_zero() {
            T::spec_zero()
        } else {
            y1.spec_mul(T::spec_one().spec_div(ylen))
        };
        let yn2 = if ylen.spec_is_zero() {
            T::spec_zero()
        } else {
            y2.spec_mul(T::spec_one().spec_div(ylen))
        };
        seq![
            xn0,
            xn1,
            xn2,
            T::spec_zero(),
            yn0,
            yn1,
            yn2,
            T::spec_zero(),
            zn0,
            zn1,
            zn2,
            T::spec_zero(),
            xn0.spec_mul(eye[0]).spec_add(xn1.spec_mul(eye[1])).spec_add(
                xn2.spec_mul(eye[2]),
            ).spec_neg(),
            yn0.spec_mul(eye[0]).spec_add(yn1.spec_mul(eye[1])).spec_add(
                yn2.spec_mul(eye[2]),
            ).spec_neg(),
            zn0.spec_mul(eye[0]).spec_add(zn1.spec_mul(eye[1])).spec_add(
                zn2.spec_mul(eye[2]),
            ).spec_neg(),
            T::spec_one(),
        ]
    }
}

/// Builds the right-handed view matrix of a camera at `eye` looking at
/// `target` with the up hint `up`; see [`look_at_seq`] for the
/// degenerate-camera policies.
pub fn look_at<'a, T: Scalar>(
    out: &'a mut [T; 16],
    eye: &[T; 3],
    target: &[T; 3],
    up: &[T; 3],
) -> (r: &'a mut [T; 16])
    ensures
        r@ == look_at_seq(eye@, target@, up@),
        final(out)@ == final(r)@,
{
    let eyex = eye[0];
    let eyey = eye[1];
    let eyez = eye[2];
    let upx = up[0];
    let upy = up[1];
    let upz = up[2];
    let e = T::eps();

    let mut z0 = eyex.sub(target[0]);
    let mut z1 = eyey.sub(target[1]);
    let mut z2 = eyez.sub(target[2]);

    if z0.abs().lt(e) && z1.abs().lt(e) && z2.abs().lt(e) {
        identity(out)
    } else {
        let mut len = T::one().div(z0.mul(z0).add(z1.mul(z1)).add(z2.mul(z2)).sqrt());
        z0 = z0.mul(len);
        z1 = z1.mul(len);
        z2 = z2.mul(len);

        let mut x0 = upy.mul(z2).sub(upz.mul(z1));
        let mut x1 = upz.mul(z0).sub(upx.mul(z2));
        let mut x2 = upx.mul(z1).sub(upy.mul(z0));
        len = x0.mul(x0).add(x1.mul(x1)).add(x2.mul(x2)).sqrt();
        if len.is_zero() {
            x0 = T::zero();
            x1 = T::zero();
            x2 = T::zero();
        } else {
            len = T::one().div(len);
            x0 = x0.mul(len);
            x1 = x1.mul(len);
            x2 = x2.mul(len);
        }

        let mut y0 = z1.mul(x2).sub(z2.mul(x1));
        let mut y1 = z2.mul(x0).sub(z0.mul(x2));
        let mut y2 = z0.mul(x1).sub(z1.mul(x0));

        len = y0.mul(y0).add(y1.mul(y1)).add(y2.mul(y2)).sqrt();
        if len.is_zero() {
            y0 = T::zero();
            y1 = T::zero();
            y2 = T::zero();
        } else {
            len = T::one().div(len);
            y0 = y0.mul(len);
            y1 = y1.mul(len);
            y2 = y2.mul(len);
        }

        out[0] = x0;
        out[1] = x1;
        out[2] = x2;
        out[3] = T::zero();
        out[4] = y0;
        out[5] = y1;
        out[6] = y2;
        out[7] = T::zero();
        out[8] = z0;
        out[9] = z1;
        out[10] = z2;
        out[11] = T::zero();
        out[12] = x0.mul(eyex).add(x1.mul(eyey)).add(x2.mul(eyez)).neg();
        out[13] = y0.mul(eyex).add(y1.mul(eyey)).add(y2.mul(eyez)).neg();
        out[14] = z0.mul(eyex).add(z1.mul(eyey)).add(z2.mul(eyez)).neg();
        out[15] = T::one();
        proof {
            assert(out@ =~= look_at_seq(eye@, target@, up@));
        }
        out
    }
}

/// The off-center perspective projection of the six frustum planes:
/// right-handed, mapping eye space to clip space with z in `[-1, 1]`.
pub open spec fn frustum_seq<T: Scalar>(
    top: T,
    right: T,
    bottom: T,
    left: T,
    near: T,
    far: T,
) -> Seq<T> {
    let x = T::spec_two().spec_mul(near).spec_div(right.spec_sub(left));
    let y = T::spec_two().spec_mul(near).spec_div(top.spec_sub(bottom));
    let a = right.spec_add(left).spec_div(right.spec_sub(left));
    let b = top.spec_add(bottom).spec_div(top.spec_sub(bottom));
    let c = far.spec_add(near).spec_neg().spec_div(far.spec_sub(near));
    let d = T::spec_two().spec_neg().spec_mul(far).spec_mul(near).spec_div(far.spec_sub(near));
    seq![
        x,
        T::spec_zero(),
        T::spec_zero(),
        T::spec_zero(),
        T::spec_zero(),
        y,
        T::spec_zero(),
        T::spec_zero(),
        a,
        b,
        c,
        T::spec_one().spec_neg(),
        T::spec_zero(),
        T::spec_zero(),
        d,
        T::spec_zero(),
    ]
}

/// The symmetric perspective projection derived from a vertical
/// field-of-view and an aspect ratio: the frustum of the bounds
/// `ymax = near * tan(fov / 2)`, `xmax = ymax * aspect` and their
/// negations.
pub open spec fn perspective_seq<T: Scalar>(fov: T, aspect: T, near: T, far: T) -> Seq<T> {
    let ymax = near.spec_mul(fov.spec_div(T::spec_two()).spec_tan());
    let ymin = ymax.spec_neg();
    let xmin = ymin.spec_mul(aspect);
    let xmax = ymax.spec_mul(aspect);
    frustum_seq(ymax, xmax, ymin, xmin, near, far)
}

/// The orthographic projection of the six clip planes.
pub open spec fn orthographic_seq<T: Scalar>(
    top: T,
    right: T,
    bottom: T,
    left: T,
    near: T,
    far: T,
) -> Seq<T> {
    let w = right.spec_sub(left);
    let h = top.spec_sub(bottom);
    let p = far.spec_sub(near);
    let x = right.spec_add(left).spec_div(w);
    let y = top.spec_add(bottom).spec_div(h);
    let z = far.spec_add(near).spec_div(p);
    seq![
        T::spec_two().spec_div(w),
        T::spec_zero(),
        T::spec_zero(),
        T::spec_zero(),
        T::spec_zero(),
        T::spec_two().spec_div(h),
        T::spec_zero(),
        T::spec_zero(),
        T::spec_zero(),
        T::spec_zero(),
        T::spec_two().spec_neg().spec_div(p),
        T::spec_zero(),
        x.spec_neg(),
        y.spec_neg(),
        z.spec_neg(),
        T::spec_one(),
    ]
}

/// Builds the off-center perspective projection of the six frustum planes.
pub fn frustum<'a, T: Scalar>(
    out: &'a mut [T; 16],
    top: T,
    right: T,
    bottom: T,
    left: T,
    near: T,
    far: T,
) -> (r: &'a mut [T; 16])
    ensures
        r@ == frustum_seq(top, right, bottom, left, near, far),
        final(out)@ == final(r)@,
{
    let x = T::two().mul(near).div(right.sub(left));
    let y = T::two().mul(near).div(top.sub(bottom));

    let a = right.add(left).div(right.sub(left));
    let b = top.add(bottom).div(top.sub(bottom));
    let c = far.add(near).neg().div(far.sub(near));
    let d = T::two().neg().mul(far).mul(near).div(far.sub(near));

    out[0] = x;
    out[4] = T::zero();
    out[8] = a;
    out[12] = T::zero();
    out[1] = T::zero();
    out[5] = y;
    out[9] = b;
    out[13] = T::zero();
    out[2] = T::zero();
    out[6] = T::zero();
    out[10] = c;
    out[14] = d;
    out[3] = T::zero();
    out[7] = T::zero();
    out[11] = T::one().neg();
    out[15] = T::zero();

    proof {
        assert(out@ =~= frustum_seq(top, right, bottom, left, near, far));
    }
    out
}

/// Builds the symmetric perspective projection of a vertical field-of-view,
/// an aspect ratio and the near and far planes, by delegating to
/// [`frustum`].
pub fn perspective<'a, T: Scalar>(
    out: &'a mut [T; 16],
    fov: T,
    aspect: T,
    near: T,
    far: T,
) -> (r: &'a mut [T; 16])
    ensures
        r@ == perspective_seq(fov, aspect, near, far),
        final(out)@ == final(r)@,
{
    let ymax = near.mul(fov.div(T::two()).tan());
    let ymin = ymax.neg();
    let xmin = ymin.mul(aspect);
    let xmax = ymax.mul(aspect);

    frustum(out, ymax, xmax, ymin, xmin, near, far)
}

/// Builds the orthographic projection of the six clip planes.
pub fn orthographic<'a, T: Scalar>(
    out: &'a mut [T; 16],
    top: T,
    right: T,
    bottom: T,
    left: T,
    near: T,
    far: T,
) -> (r: &'a mut [T; 16])
    ensures
        r@ == orthographic_seq(top, right, bottom, left, near, far),
        final(out)@ == final(r)@,
{
    let w = right.sub(left);
    let h = top.sub(bottom);
    let p = far.sub(near);

    let x = right.add(left).div(w);
    let y = top.add(bottom).div(h);
    let z = far.add(near).div(p);

    out[0] = T::two().div(w);
    out[1] = T::zero();
    out[2] = T::zero();
    out[3] = T::zero();
    out[4] = T::zero();
    out[5] = T::two().div(h);
    out[6] = T::zero();
    out[7] = T::zero();
    out[8] = T::zero();
    out[9] = T::zero();
    out[10] = T::two().neg().div(p);
    out[11] = T::zero();
    out[12] = x.neg();
    out[13] = y.neg();
    out[14] = z.neg();
    out[15] = T::one();

    proof {
        assert(out@ =~= orthographic_seq(top, right, bottom, left, near, far));
    }
    out
}

} // verus!
